//! Template rendering: each generated file's text is a pure function of the
//! configuration's named fields. The templates are deliberately small; the
//! orchestration in [`crate::create`] decides which of them is rendered
//! where.

use crate::models::Property;
use crate::models::spec_label;
use crate::properties::PropertyMap;
use vstd::prelude::*;
use vstd::string::StringExecFns;

verus! {

/// One comment line per property, in insertion order: name and kind label.
pub open spec fn props_comment(props: Seq<(Seq<char>, Property)>) -> Seq<char>
    decreases props.len(),
{
    if props.len() == 0 {
        Seq::empty()
    } else {
        props_comment(props.drop_last()) + "   "@ + props.last().0 + " : "@ + spec_label(
            props.last().1,
        ) + "\n"@
    }
}

/// The shared data-model file: fixed fields plus one comment line per
/// collected property.
pub open spec fn spec_model_ts(model: Seq<char>, props: Seq<(Seq<char>, Property)>) -> Seq<char> {
    "export interface "@ + model + " {\n  id : number;\n  name : string;\n  /*\n"@ + props_comment(
        props,
    ) + "  */\n  created_at : Date;\n  updated_at: Date;\n}\n"@
}

/// Renders the shared data-model file for the titled model name and the
/// collected properties.
pub fn render_model_ts(model: &str, properties: &PropertyMap) -> (r: String)
    ensures
        r@ == spec_model_ts(model@, properties.view_entries()),
{
    let ghost props = properties.view_entries();
    let mut r = String::from_str("export interface ");
    r.append(model);
    r.append(" {\n  id : number;\n  name : string;\n  /*\n");
    let ghost head = r@;
    let n = properties.entries.len();
    let mut i: usize = 0;
    while i < n
        invariant
            n == properties.entries@.len(),
            props == properties.view_entries(),
            0 <= i <= n,
            r@ == head + props_comment(props.take(i as int)),
        decreases n - i,
    {
        r.append("   ");
        r.append(properties.entries[i].0.as_str());
        r.append(" : ");
        r.append(properties.entries[i].1.label());
        r.append("\n");
        proof {
            assert(props.take(i + 1).drop_last() =~= props.take(i as int));
            assert(props.take(i + 1).last() == props[i as int]);
            assert(r@ =~= head + props_comment(props.take(i + 1)));
        }
        i += 1;
    }
    r.append("  */\n  created_at : Date;\n  updated_at: Date;\n}\n");
    proof {
        assert(props.take(n as int) =~= props);
        assert(r@ =~= spec_model_ts(model@, props));
    }
    r
}

/// The form page's markup file (a fixed template).
pub open spec fn spec_form_html() -> Seq<char> {
    "<form [formGroup]=\"form\">\n  <mat-label> Nombre </mat-label>\n  <input matInput formControlName=\"name\" />\n</form>\n"@
}

/// Renders the form page's markup file.
pub fn render_form_html() -> (r: String)
    ensures
        r@ == spec_form_html(),
{
    String::from_str(
        "<form [formGroup]=\"form\">\n  <mat-label> Nombre </mat-label>\n  <input matInput formControlName=\"name\" />\n</form>\n",
    )
}

/// The form page's behavior file.
pub open spec fn spec_form_ts(section: Seq<char>, model: Seq<char>) -> Seq<char> {
    "import { "@ + model + " } from \"../../../../shared/models/"@ + section
        + ".model\";\n\nexport class FormComponent {\n  "@ + section + "?: "@ + model
        + ";\n  routeEnum = RoutesEnum."@ + model + "Api;\n}\n"@
}

/// Renders the form page's behavior file.
pub fn render_form_ts(section: &str, model: &str) -> (r: String)
    ensures
        r@ == spec_form_ts(section@, model@),
{
    let mut r = String::from_str("import { ");
    r.append(model);
    r.append(" } from \"../../../../shared/models/");
    r.append(section);
    r.append(".model\";\n\nexport class FormComponent {\n  ");
    r.append(section);
    r.append("?: ");
    r.append(model);
    r.append(";\n  routeEnum = RoutesEnum.");
    r.append(model);
    r.append("Api;\n}\n");
    proof {
        assert(r@ =~= spec_form_ts(section@, model@));
    }
    r
}

/// The list page's markup file.
pub open spec fn spec_list_html(plural: Seq<char>) -> Seq<char> {
    "<div class=\"row\">\n  <simple-card *ngFor=\"let ent of "@ + plural
        + "List$ | async\">\n    {{ ent.name | titlecase }}\n  </simple-card>\n</div>\n"@
}

/// Renders the list page's markup file.
pub fn render_list_html(plural: &str) -> (r: String)
    ensures
        r@ == spec_list_html(plural@),
{
    let mut r = String::from_str("<div class=\"row\">\n  <simple-card *ngFor=\"let ent of ");
    r.append(plural);
    r.append("List$ | async\">\n    {{ ent.name | titlecase }}\n  </simple-card>\n</div>\n");
    proof {
        assert(r@ =~= spec_list_html(plural@));
    }
    r
}

/// The list page's behavior file.
pub open spec fn spec_list_ts(
    model: Seq<char>,
    section: Seq<char>,
    plural_titled: Seq<char>,
    plural: Seq<char>,
    api_route: Seq<char>,
) -> Seq<char> {
    "import { "@ + model + " } from \"../../../../shared/models/"@ + section
        + ".model\";\nimport { "@ + model + "Service } from \"../../../../services/http/"@
        + api_route + "/"@ + api_route + ".service\";\n\nexport class ListComponent {\n  "@ + plural
        + "List$?: Observable<"@ + model + "[]>;\n  routeEnum = RoutesEnum."@ + model
        + "Api;\n  ngOnInit() {\n    this."@ + plural + "List$ = this."@ + section + "Service."@
        + plural + ";\n    this."@ + section + "Service.set"@ + plural_titled + "([]);\n  }\n}\n"@
}

/// Renders the list page's behavior file.
pub fn render_list_ts(
    model: &str,
    section: &str,
    plural_titled: &str,
    plural: &str,
    api_route: &str,
) -> (r: String)
    ensures
        r@ == spec_list_ts(model@, section@, plural_titled@, plural@, api_route@),
{
    let mut r = String::from_str("import { ");
    r.append(model);
    r.append(" } from \"../../../../shared/models/");
    r.append(section);
    r.append(".model\";\nimport { ");
    r.append(model);
    r.append("Service } from \"../../../../services/http/");
    r.append(api_route);
    r.append("/");
    r.append(api_route);
    r.append(".service\";\n\nexport class ListComponent {\n  ");
    r.append(plural);
    r.append("List$?: Observable<");
    r.append(model);
    r.append("[]>;\n  routeEnum = RoutesEnum.");
    r.append(model);
    r.append("Api;\n  ngOnInit() {\n    this.");
    r.append(plural);
    r.append("List$ = this.");
    r.append(section);
    r.append("Service.");
    r.append(plural);
    r.append(";\n    this.");
    r.append(section);
    r.append("Service.set");
    r.append(plural_titled);
    r.append("([]);\n  }\n}\n");
    proof {
        assert(r@ =~= spec_list_ts(model@, section@, plural_titled@, plural@, api_route@));
    }
    r
}

/// The show page's markup file (a fixed template).
pub open spec fn spec_show_html() -> Seq<char> {
    "<app-root-show [forShow]=\"showing\">\n</app-root-show>\n"@
}

/// Renders the show page's markup file.
pub fn render_show_html() -> (r: String)
    ensures
        r@ == spec_show_html(),
{
    String::from_str("<app-root-show [forShow]=\"showing\">\n</app-root-show>\n")
}

/// The show page's behavior file.
pub open spec fn spec_show_ts(model: Seq<char>, section: Seq<char>) -> Seq<char> {
    "import { "@ + model + " } from \"../../../../shared/models/"@ + section
        + ".model\";\n\nexport class ShowComponent extends ModalShowBaseComponent<"@ + model
        + "> {\n}\n"@
}

/// Renders the show page's behavior file.
pub fn render_show_ts(model: &str, section: &str) -> (r: String)
    ensures
        r@ == spec_show_ts(model@, section@),
{
    let mut r = String::from_str("import { ");
    r.append(model);
    r.append(" } from \"../../../../shared/models/");
    r.append(section);
    r.append(".model\";\n\nexport class ShowComponent extends ModalShowBaseComponent<");
    r.append(model);
    r.append("> {\n}\n");
    proof {
        assert(r@ =~= spec_show_ts(model@, section@));
    }
    r
}

/// The feature's routing descriptor file.
pub open spec fn spec_routing(
    model: Seq<char>,
    section_plural: Seq<char>,
    plural_titled: Seq<char>,
) -> Seq<char> {
    "import { RoutesEnum } from \"../../constants/routes\";\n\nconst section = RoutesEnum."@
        + model + ";\nconst apiSection = RoutesEnum."@ + model
        + "Api;\n\nconst routes = [\n  {\n    path: \"\",\n    data: { title: \""@ + plural_titled
        + "\", section: \""@ + section_plural
        + "\" },\n    children: [{ path: \"listar\", data: { section, apiSection } }],\n  },\n];\n\nexport class "@
        + plural_titled + "RoutingModule {}\n"@
}

/// Renders the feature's routing descriptor file.
pub fn render_routing(model: &str, section_plural: &str, plural_titled: &str) -> (r: String)
    ensures
        r@ == spec_routing(model@, section_plural@, plural_titled@),
{
    let mut r = String::from_str(
        "import { RoutesEnum } from \"../../constants/routes\";\n\nconst section = RoutesEnum.",
    );
    r.append(model);
    r.append(";\nconst apiSection = RoutesEnum.");
    r.append(model);
    r.append("Api;\n\nconst routes = [\n  {\n    path: \"\",\n    data: { title: \"");
    r.append(plural_titled);
    r.append("\", section: \"");
    r.append(section_plural);
    r.append(
        "\" },\n    children: [{ path: \"listar\", data: { section, apiSection } }],\n  },\n];\n\nexport class ",
    );
    r.append(plural_titled);
    r.append("RoutingModule {}\n");
    proof {
        assert(r@ =~= spec_routing(model@, section_plural@, plural_titled@));
    }
    r
}

/// The feature's module descriptor file.
pub open spec fn spec_module(plural_titled: Seq<char>, api_route: Seq<char>) -> Seq<char> {
    "import { "@ + plural_titled + "RoutingModule } from './"@ + api_route
        + "-routing.module';\n\nexport class "@ + plural_titled + "Module { }\n"@
}

/// Renders the feature's module descriptor file.
pub fn render_module(plural_titled: &str, api_route: &str) -> (r: String)
    ensures
        r@ == spec_module(plural_titled@, api_route@),
{
    let mut r = String::from_str("import { ");
    r.append(plural_titled);
    r.append("RoutingModule } from './");
    r.append(api_route);
    r.append("-routing.module';\n\nexport class ");
    r.append(plural_titled);
    r.append("Module { }\n");
    proof {
        assert(r@ =~= spec_module(plural_titled@, api_route@));
    }
    r
}

/// The feature's resolver file.
pub open spec fn spec_resolvers(model: Seq<char>, plural_titled: Seq<char>) -> Seq<char> {
    "import { RoutesEnum } from '../../../constants/routes';\n\nexport class All"@ + plural_titled
        + "Resolver {\n  resolve() {\n    return this.rootService.getAll(RoutesEnum."@ + model
        + "Api);\n  }\n}\n\nexport class "@ + model
        + "Resolver {\n  resolve(id) {\n    return this.rootService.getOne(RoutesEnum."@ + model
        + "Api, id);\n  }\n}\n"@
}

/// Renders the feature's resolver file.
pub fn render_resolvers(model: &str, plural_titled: &str) -> (r: String)
    ensures
        r@ == spec_resolvers(model@, plural_titled@),
{
    let mut r = String::from_str(
        "import { RoutesEnum } from '../../../constants/routes';\n\nexport class All",
    );
    r.append(plural_titled);
    r.append("Resolver {\n  resolve() {\n    return this.rootService.getAll(RoutesEnum.");
    r.append(model);
    r.append("Api);\n  }\n}\n\nexport class ");
    r.append(model);
    r.append("Resolver {\n  resolve(id) {\n    return this.rootService.getOne(RoutesEnum.");
    r.append(model);
    r.append("Api, id);\n  }\n}\n");
    proof {
        assert(r@ =~= spec_resolvers(model@, plural_titled@));
    }
    r
}

/// The feature's data-access service file.
pub open spec fn spec_model_service(
    model: Seq<char>,
    section: Seq<char>,
    plural: Seq<char>,
    plural_titled: Seq<char>,
) -> Seq<char> {
    "import { RoutesEnum } from \"../../../constants/routes\";\nimport { "@ + model
        + " } from \"../../../shared/models/"@ + section + ".model\";\n\nexport class "@ + model
        + "Service {\n  get "@ + plural + "() {\n    return this.#"@ + plural
        + ".asObservable();\n  }\n  set"@ + plural_titled + "("@ + plural + ") {\n    this.#"@
        + plural + ".next("@ + plural + ");\n  }\n}\n"@
}

/// Renders the feature's data-access service file.
pub fn render_model_service(model: &str, section: &str, plural: &str, plural_titled: &str) -> (r:
    String)
    ensures
        r@ == spec_model_service(model@, section@, plural@, plural_titled@),
{
    let mut r = String::from_str(
        "import { RoutesEnum } from \"../../../constants/routes\";\nimport { ",
    );
    r.append(model);
    r.append(" } from \"../../../shared/models/");
    r.append(section);
    r.append(".model\";\n\nexport class ");
    r.append(model);
    r.append("Service {\n  get ");
    r.append(plural);
    r.append("() {\n    return this.#");
    r.append(plural);
    r.append(".asObservable();\n  }\n  set");
    r.append(plural_titled);
    r.append("(");
    r.append(plural);
    r.append(") {\n    this.#");
    r.append(plural);
    r.append(".next(");
    r.append(plural);
    r.append(");\n  }\n}\n");
    proof {
        assert(r@ =~= spec_model_service(model@, section@, plural@, plural_titled@));
    }
    r
}

/// The block inserted into the route-name enumeration: one name for the
/// front route and one for the API route.
pub open spec fn spec_route_enums_insertion(
    model: Seq<char>,
    front_route: Seq<char>,
    api_route: Seq<char>,
) -> Seq<char> {
    "  "@ + model + " = \""@ + front_route + "\",\n  "@ + model + "Api = \""@ + api_route
        + "\",\n"@
}

/// Renders the block inserted into the route-name enumeration.
pub fn render_route_enums_insertion(model: &str, front_route: &str, api_route: &str) -> (r: String)
    ensures
        r@ == spec_route_enums_insertion(model@, front_route@, api_route@),
{
    let mut r = String::from_str("  ");
    r.append(model);
    r.append(" = \"");
    r.append(front_route);
    r.append("\",\n  ");
    r.append(model);
    r.append("Api = \"");
    r.append(api_route);
    r.append("\",\n");
    proof {
        assert(r@ =~= spec_route_enums_insertion(model@, front_route@, api_route@));
    }
    r
}

/// The block inserted into the route table: the lazily loaded feature
/// module under its route name.
pub open spec fn spec_routes_insertion(
    model: Seq<char>,
    plural_titled: Seq<char>,
    api_route: Seq<char>,
) -> Seq<char> {
    "  {\n    path: RoutesEnum."@ + model + ",\n    loadChildren: () =>\n      import(\"./views/"@
        + api_route + "/"@ + api_route + ".module\").then(\n        (m) => m."@ + plural_titled
        + "Module\n      ),\n  },\n"@
}

/// Renders the block inserted into the route table.
pub fn render_routes_insertion(model: &str, plural_titled: &str, api_route: &str) -> (r: String)
    ensures
        r@ == spec_routes_insertion(model@, plural_titled@, api_route@),
{
    let mut r = String::from_str("  {\n    path: RoutesEnum.");
    r.append(model);
    r.append(",\n    loadChildren: () =>\n      import(\"./views/");
    r.append(api_route);
    r.append("/");
    r.append(api_route);
    r.append(".module\").then(\n        (m) => m.");
    r.append(plural_titled);
    r.append("Module\n      ),\n  },\n");
    proof {
        assert(r@ =~= spec_routes_insertion(model@, plural_titled@, api_route@));
    }
    r
}

/// The block inserted into the navigation tree: one entry under the route
/// name, with the chosen icon.
pub open spec fn spec_nav_insertion(model: Seq<char>, icon: Seq<char>) -> Seq<char> {
    "  {\n    name: RoutesEnum."@ + model + ",\n    url: `${RoutesEnum."@ + model
        + "}/listar`,\n    icon: \"fa "@ + icon + " scaling\",\n  },\n"@
}

/// Renders the block inserted into the navigation tree.
pub fn render_nav_insertion(model: &str, icon: &str) -> (r: String)
    ensures
        r@ == spec_nav_insertion(model@, icon@),
{
    let mut r = String::from_str("  {\n    name: RoutesEnum.");
    r.append(model);
    r.append(",\n    url: `${RoutesEnum.");
    r.append(model);
    r.append("}/listar`,\n    icon: \"fa ");
    r.append(icon);
    r.append(" scaling\",\n  },\n");
    proof {
        assert(r@ =~= spec_nav_insertion(model@, icon@));
    }
    r
}

/// The form interface file (full layout only).
pub open spec fn spec_form_interface(model: Seq<char>) -> Seq<char> {
    "export interface "@ + model + "Form extends FormInterface {\n}\n"@
}

/// Renders the form interface file of the full layout.
pub fn render_form_interface(model: &str) -> (r: String)
    ensures
        r@ == spec_form_interface(model@),
{
    let mut r = String::from_str("export interface ");
    r.append(model);
    r.append("Form extends FormInterface {\n}\n");
    proof {
        assert(r@ =~= spec_form_interface(model@));
    }
    r
}

/// The form template file (full layout only): the collected properties in a
/// comment, then a fixed starting template.
pub open spec fn spec_form_template(props: Seq<(Seq<char>, Property)>) -> Seq<char> {
    "/*\n"@ + props_comment(props)
        + "*/\n\nexport const campsTemplate = [\n  [{ name: \"name\", label: \"Nombre Visible\", required: true }],\n];\n"@
}

/// Renders the form template file of the full layout.
pub fn render_form_template(properties: &PropertyMap) -> (r: String)
    ensures
        r@ == spec_form_template(properties.view_entries()),
{
    let ghost props = properties.view_entries();
    let mut r = String::from_str("/*\n");
    let ghost head = r@;
    let n = properties.entries.len();
    let mut i: usize = 0;
    while i < n
        invariant
            n == properties.entries@.len(),
            props == properties.view_entries(),
            0 <= i <= n,
            r@ == head + props_comment(props.take(i as int)),
        decreases n - i,
    {
        r.append("   ");
        r.append(properties.entries[i].0.as_str());
        r.append(" : ");
        r.append(properties.entries[i].1.label());
        r.append("\n");
        proof {
            assert(props.take(i + 1).drop_last() =~= props.take(i as int));
            assert(props.take(i + 1).last() == props[i as int]);
            assert(r@ =~= head + props_comment(props.take(i + 1)));
        }
        i += 1;
    }
    r.append(
        "*/\n\nexport const campsTemplate = [\n  [{ name: \"name\", label: \"Nombre Visible\", required: true }],\n];\n",
    );
    proof {
        assert(props.take(n as int) =~= props);
        assert(r@ =~= spec_form_template(props));
    }
    r
}

/// The list template file (full layout only).
pub open spec fn spec_list_template(
    model: Seq<char>,
    section: Seq<char>,
    icon: Seq<char>,
) -> Seq<char> {
    "import { "@ + model + " } from \"../../../shared/models/"@ + section
        + ".model\";\n\nexport const template = {\n  headIcon: \"fas "@ + icon
        + " fa-2x ms-1 mt-1\",\n};\n\nexport function setData(obj: "@ + model
        + ") {\n  return { avatar: \""@ + icon + "\", id: obj.id };\n}\n"@
}

/// Renders the list template file of the full layout.
pub fn render_list_template(model: &str, section: &str, icon: &str) -> (r: String)
    ensures
        r@ == spec_list_template(model@, section@, icon@),
{
    let mut r = String::from_str("import { ");
    r.append(model);
    r.append(" } from \"../../../shared/models/");
    r.append(section);
    r.append(".model\";\n\nexport const template = {\n  headIcon: \"fas ");
    r.append(icon);
    r.append(" fa-2x ms-1 mt-1\",\n};\n\nexport function setData(obj: ");
    r.append(model);
    r.append(") {\n  return { avatar: \"");
    r.append(icon);
    r.append("\", id: obj.id };\n}\n");
    proof {
        assert(r@ =~= spec_list_template(model@, section@, icon@));
    }
    r
}

/// The modal page's markup file (full layout only).
pub open spec fn spec_modal_html(section: Seq<char>) -> Seq<char> {
    "<mat-dialog-content>\n  <app-root-form [forEdit]=\""@ + section
        + "ForEdit\">\n  </app-root-form>\n</mat-dialog-content>\n"@
}

/// Renders the modal page's markup file of the full layout.
pub fn render_modal_html(section: &str) -> (r: String)
    ensures
        r@ == spec_modal_html(section@),
{
    let mut r = String::from_str("<mat-dialog-content>\n  <app-root-form [forEdit]=\"");
    r.append(section);
    r.append("ForEdit\">\n  </app-root-form>\n</mat-dialog-content>\n");
    proof {
        assert(r@ =~= spec_modal_html(section@));
    }
    r
}

/// The modal page's behavior file (full layout only).
pub open spec fn spec_modal_ts(model: Seq<char>, section: Seq<char>) -> Seq<char> {
    "import { "@ + model + " } from \"../../../../shared/models/"@ + section
        + ".model\";\nimport { "@ + model
        + "Form } from \"../../templates/form.interface\";\n\nexport class ModalComponent implements "@
        + model + "Form {\n  "@ + section + "ForEdit?: "@ + model + ";\n}\n"@
}

/// Renders the modal page's behavior file of the full layout.
pub fn render_modal_ts(model: &str, section: &str) -> (r: String)
    ensures
        r@ == spec_modal_ts(model@, section@),
{
    let mut r = String::from_str("import { ");
    r.append(model);
    r.append(" } from \"../../../../shared/models/");
    r.append(section);
    r.append(".model\";\nimport { ");
    r.append(model);
    r.append("Form } from \"../../templates/form.interface\";\n\nexport class ModalComponent implements ");
    r.append(model);
    r.append("Form {\n  ");
    r.append(section);
    r.append("ForEdit?: ");
    r.append(model);
    r.append(";\n}\n");
    proof {
        assert(r@ =~= spec_modal_ts(model@, section@));
    }
    r
}

} // verus!
