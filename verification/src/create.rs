//! The generation engine's orchestration: from a frozen configuration it
//! computes the ordered plan of one generation run — which directories are
//! created, which files are written with which rendered text, and which
//! registry patches are applied. Performing the plan against the filesystem
//! happens outside the library, driven step by step by [`crate::engine`].

use crate::models::Property;
use crate::patch::RegistryTarget;
use crate::properties::PropertyMap;
use crate::render::{
    render_form_html, render_form_interface, render_form_template, render_form_ts,
    render_list_html, render_list_template, render_list_ts, render_modal_html, render_modal_ts,
    render_model_service, render_model_ts, render_module, render_nav_insertion, render_resolvers,
    render_route_enums_insertion, render_routes_insertion, render_routing, render_show_html,
    render_show_ts, spec_form_html, spec_form_interface, spec_form_template, spec_form_ts,
    spec_list_html, spec_list_template, spec_list_ts, spec_modal_html, spec_modal_ts,
    spec_model_service, spec_model_ts, spec_module, spec_nav_insertion, spec_resolvers,
    spec_route_enums_insertion, spec_routes_insertion, spec_routing, spec_show_html, spec_show_ts,
};
use crate::text::spec_normalize;
use crate::text::spec_title;
use crate::text::title;
use vstd::prelude::*;
use vstd::string::StringExecFns;

verus! {

/// The frozen inputs of one generation run.
pub struct Config {
    /// Singular feature name, pre-normalized and non-empty.
    pub section: String,
    /// Plural feature name, pre-normalized and non-empty.
    pub section_plural: String,
    /// API route segment, pre-normalized, may be empty.
    pub api_route: String,
    /// Front route segment, pre-normalized, may be empty.
    pub front_route: String,
    /// Icon-font identifier, pre-normalized, may be empty.
    pub icon: String,
    /// The collected properties.
    pub properties: PropertyMap,
}

impl Config {
    /// Well-formed: every string field is in normal form, the two names are
    /// non-empty, and the property map is well-formed.
    pub open spec fn wf(self) -> bool {
        &&& self.section@.len() > 0
        &&& self.section_plural@.len() > 0
        &&& spec_normalize(self.section@) == self.section@
        &&& spec_normalize(self.section_plural@) == self.section_plural@
        &&& spec_normalize(self.api_route@) == self.api_route@
        &&& spec_normalize(self.front_route@) == self.front_route@
        &&& spec_normalize(self.icon@) == self.icon@
        &&& self.properties.wf()
    }

    /// Builds the frozen configuration of one run from pre-normalized
    /// inputs.
    pub fn new(
        section: String,
        section_plural: String,
        api_route: String,
        front_route: String,
        icon: String,
        properties: PropertyMap,
    ) -> (r: Config)
        requires
            section@.len() > 0,
            section_plural@.len() > 0,
            spec_normalize(section@) == section@,
            spec_normalize(section_plural@) == section_plural@,
            spec_normalize(api_route@) == api_route@,
            spec_normalize(front_route@) == front_route@,
            spec_normalize(icon@) == icon@,
            properties.wf(),
        ensures
            r.wf(),
            r.section == section,
            r.section_plural == section_plural,
            r.api_route == api_route,
            r.front_route == front_route,
            r.icon == icon,
            r.properties == properties,
    {
        Config { section, section_plural, api_route, front_route, icon, properties }
    }
}

/// Which set of files a generation run produces: the flat layout, or the
/// full layout with the extra modal page and template files.
#[derive(Clone, Copy, Debug, PartialEq, Eq, Structural)]
pub enum Layout {
    Flat,
    Full,
}

/// One filesystem step of a generation run.
#[derive(Debug)]
pub enum Action {
    /// Create this directory and its parents; an existing directory is not
    /// an error.
    MakeDir(String),
    /// Write a file with the given text at the given path, overwriting
    /// without confirmation.
    WriteFile(String, String),
    /// Insert the given text into the given registry file immediately
    /// before its closing marker.
    Patch(RegistryTarget, String),
}

/// An action with its strings as character sequences.
pub enum ActionView {
    MakeDir(Seq<char>),
    WriteFile(Seq<char>, Seq<char>),
    Patch(RegistryTarget, Seq<char>),
}

impl View for Action {
    type V = ActionView;

    open spec fn view(&self) -> ActionView {
        match self {
            Action::MakeDir(p) => ActionView::MakeDir(p@),
            Action::WriteFile(p, text) => ActionView::WriteFile(p@, text@),
            Action::Patch(t, text) => ActionView::Patch(*t, text@),
        }
    }
}

/// The views of a sequence of actions.
pub open spec fn action_views(s: Seq<Action>) -> Seq<ActionView> {
    s.map_values(|a: Action| a@)
}

/// The feature's base directory, keyed by the API route segment.
pub open spec fn spec_base_path(api_route: Seq<char>) -> Seq<char> {
    "./src/app/views/"@ + api_route
}

/// The feature's service directory, keyed by the API route segment.
pub open spec fn spec_service_path(api_route: Seq<char>) -> Seq<char> {
    "./src/app/services/http/"@ + api_route
}

/// The shared data-model file's path, keyed by the singular name.
pub open spec fn spec_model_path(section: Seq<char>) -> Seq<char> {
    "./src/app/shared/models/"@ + section + ".model.ts"@
}

fn concat2(a: &str, b: &str) -> (r: String)
    ensures
        r@ == a@ + b@,
{
    let mut r = String::from_str(a);
    r.append(b);
    r
}

fn join_file(dir: &str, name: &str, suffix: &str) -> (r: String)
    ensures
        r@ == dir@ + "/"@ + name@ + suffix@,
{
    let mut r = String::from_str(dir);
    r.append("/");
    r.append(name);
    r.append(suffix);
    r
}

/// The full ordered plan of one generation run: the directories, then the
/// page files, then the wiring files, then the three registry patches, then
/// (in the full layout) the template files, and last the shared data-model
/// file.
pub open spec fn spec_create(c: Config, layout: Layout) -> Seq<ActionView> {
    let model = spec_title(c.section@);
    let plural_titled = spec_title(c.section_plural@);
    let base = spec_base_path(c.api_route@);
    let service = spec_service_path(c.api_route@);
    let dirs = seq![
        ActionView::MakeDir(base),
        ActionView::MakeDir(service),
        ActionView::MakeDir(base + "/pages/form"@),
        ActionView::MakeDir(base + "/pages/list"@),
        ActionView::MakeDir(base + "/pages/show"@),
    ] + (if layout is Full {
        seq![ActionView::MakeDir(base + "/pages/modal"@), ActionView::MakeDir(base + "/templates"@)]
    } else {
        Seq::<ActionView>::empty()
    });
    let pages = seq![
        ActionView::WriteFile(base + "/pages/form/form.component.html"@, spec_form_html()),
        ActionView::WriteFile(
            base + "/pages/form/form.component.ts"@,
            spec_form_ts(c.section@, model),
        ),
        ActionView::WriteFile(
            base + "/pages/list/list.component.html"@,
            spec_list_html(c.section_plural@),
        ),
        ActionView::WriteFile(
            base + "/pages/list/list.component.ts"@,
            spec_list_ts(model, c.section@, plural_titled, c.section_plural@, c.api_route@),
        ),
        ActionView::WriteFile(base + "/pages/show/show.component.html"@, spec_show_html()),
        ActionView::WriteFile(
            base + "/pages/show/show.component.ts"@,
            spec_show_ts(model, c.section@),
        ),
    ] + (if layout is Full {
        seq![
            ActionView::WriteFile(
                base + "/pages/modal/modal.component.html"@,
                spec_modal_html(c.section@),
            ),
            ActionView::WriteFile(
                base + "/pages/modal/modal.component.ts"@,
                spec_modal_ts(model, c.section@),
            ),
        ]
    } else {
        Seq::<ActionView>::empty()
    });
    let wiring = seq![
        ActionView::WriteFile(
            base + "/"@ + c.api_route@ + "-routing.module.ts"@,
            spec_routing(model, c.section_plural@, plural_titled),
        ),
        ActionView::WriteFile(
            base + "/"@ + c.api_route@ + ".module.ts"@,
            spec_module(plural_titled, c.api_route@),
        ),
        ActionView::WriteFile(
            service + "/"@ + c.section_plural@ + ".resolver.ts"@,
            spec_resolvers(model, plural_titled),
        ),
        ActionView::WriteFile(
            service + "/"@ + c.api_route@ + ".service.ts"@,
            spec_model_service(model, c.section@, c.section_plural@, plural_titled),
        ),
    ];
    let patches = seq![
        ActionView::Patch(RegistryTarget::NavTree, spec_nav_insertion(model, c.icon@)),
        ActionView::Patch(
            RegistryTarget::RouteTable,
            spec_routes_insertion(model, plural_titled, c.api_route@),
        ),
        ActionView::Patch(
            RegistryTarget::RouteEnum,
            spec_route_enums_insertion(model, c.front_route@, c.api_route@),
        ),
    ];
    let extras = if layout is Full {
        seq![
            ActionView::WriteFile(base + "/templates/form.interface.ts"@, spec_form_interface(model)),
            ActionView::WriteFile(
                base + "/templates/form.template.ts"@,
                spec_form_template(c.properties.view_entries()),
            ),
            ActionView::WriteFile(
                base + "/templates/list.temp.functions.ts"@,
                spec_list_template(model, c.section@, c.icon@),
            ),
        ]
    } else {
        Seq::<ActionView>::empty()
    };
    let model_file = seq![
        ActionView::WriteFile(
            spec_model_path(c.section@),
            spec_model_ts(model, c.properties.view_entries()),
        ),
    ];
    dirs + pages + wiring + patches + extras + model_file
}

/// Computes the ordered plan of one generation run for the chosen layout.
/// The plan is exactly [`spec_create`] of the configuration; performing it
/// in order, stopping at the first failure, is the engine's whole contract
/// with the filesystem.
#[verifier::rlimit(60)]
pub fn create(config: &Config, layout: Layout) -> (plan: Vec<Action>)
    requires
        config.wf(),
    ensures
        action_views(plan@) == spec_create(*config, layout),
{
    let full = layout == Layout::Full;
    let model = title(config.section.as_str());
    let plural_titled = title(config.section_plural.as_str());
    let base = concat2("./src/app/views/", config.api_route.as_str());
    let service = concat2("./src/app/services/http/", config.api_route.as_str());
    let mut plan: Vec<Action> = Vec::new();
    plan.push(Action::MakeDir(base.clone()));
    plan.push(Action::MakeDir(service.clone()));
    plan.push(Action::MakeDir(concat2(base.as_str(), "/pages/form")));
    plan.push(Action::MakeDir(concat2(base.as_str(), "/pages/list")));
    plan.push(Action::MakeDir(concat2(base.as_str(), "/pages/show")));
    if full {
        plan.push(Action::MakeDir(concat2(base.as_str(), "/pages/modal")));
        plan.push(Action::MakeDir(concat2(base.as_str(), "/templates")));
    }
    plan.push(
        Action::WriteFile(
            concat2(base.as_str(), "/pages/form/form.component.html"),
            render_form_html(),
        ),
    );
    plan.push(
        Action::WriteFile(
            concat2(base.as_str(), "/pages/form/form.component.ts"),
            render_form_ts(config.section.as_str(), model.as_str()),
        ),
    );
    plan.push(
        Action::WriteFile(
            concat2(base.as_str(), "/pages/list/list.component.html"),
            render_list_html(config.section_plural.as_str()),
        ),
    );
    plan.push(
        Action::WriteFile(
            concat2(base.as_str(), "/pages/list/list.component.ts"),
            render_list_ts(
                model.as_str(),
                config.section.as_str(),
                plural_titled.as_str(),
                config.section_plural.as_str(),
                config.api_route.as_str(),
            ),
        ),
    );
    plan.push(
        Action::WriteFile(
            concat2(base.as_str(), "/pages/show/show.component.html"),
            render_show_html(),
        ),
    );
    plan.push(
        Action::WriteFile(
            concat2(base.as_str(), "/pages/show/show.component.ts"),
            render_show_ts(model.as_str(), config.section.as_str()),
        ),
    );
    if full {
        plan.push(
            Action::WriteFile(
                concat2(base.as_str(), "/pages/modal/modal.component.html"),
                render_modal_html(config.section.as_str()),
            ),
        );
        plan.push(
            Action::WriteFile(
                concat2(base.as_str(), "/pages/modal/modal.component.ts"),
                render_modal_ts(model.as_str(), config.section.as_str()),
            ),
        );
    }
    plan.push(
        Action::WriteFile(
            join_file(base.as_str(), config.api_route.as_str(), "-routing.module.ts"),
            render_routing(
                model.as_str(),
                config.section_plural.as_str(),
                plural_titled.as_str(),
            ),
        ),
    );
    plan.push(
        Action::WriteFile(
            join_file(base.as_str(), config.api_route.as_str(), ".module.ts"),
            render_module(plural_titled.as_str(), config.api_route.as_str()),
        ),
    );
    plan.push(
        Action::WriteFile(
            join_file(service.as_str(), config.section_plural.as_str(), ".resolver.ts"),
            render_resolvers(model.as_str(), plural_titled.as_str()),
        ),
    );
    plan.push(
        Action::WriteFile(
            join_file(service.as_str(), config.api_route.as_str(), ".service.ts"),
            render_model_service(
                model.as_str(),
                config.section.as_str(),
                config.section_plural.as_str(),
                plural_titled.as_str(),
            ),
        ),
    );
    plan.push(
        Action::Patch(
            RegistryTarget::NavTree,
            render_nav_insertion(model.as_str(), config.icon.as_str()),
        ),
    );
    plan.push(
        Action::Patch(
            RegistryTarget::RouteTable,
            render_routes_insertion(
                model.as_str(),
                plural_titled.as_str(),
                config.api_route.as_str(),
            ),
        ),
    );
    plan.push(
        Action::Patch(
            RegistryTarget::RouteEnum,
            render_route_enums_insertion(
                model.as_str(),
                config.front_route.as_str(),
                config.api_route.as_str(),
            ),
        ),
    );
    if full {
        plan.push(
            Action::WriteFile(
                concat2(base.as_str(), "/templates/form.interface.ts"),
                render_form_interface(model.as_str()),
            ),
        );
        plan.push(
            Action::WriteFile(
                concat2(base.as_str(), "/templates/form.template.ts"),
                render_form_template(&config.properties),
            ),
        );
        plan.push(
            Action::WriteFile(
                concat2(base.as_str(), "/templates/list.temp.functions.ts"),
                render_list_template(
                    model.as_str(),
                    config.section.as_str(),
                    config.icon.as_str(),
                ),
            ),
        );
    }
    plan.push(
        Action::WriteFile(
            concat2("./src/app/shared/models/", config.section.as_str()).concat(".model.ts"),
            render_model_ts(model.as_str(), &config.properties),
        ),
    );
    proof {
        if layout is Full {
            assert(action_views(plan@) =~= spec_create(*config, layout));
        } else {
            assert(action_views(plan@) =~= spec_create(*config, layout));
        }
    }
    plan
}

} // verus!
