use scaffolder::create::{create, Action, Config, Layout};
use scaffolder::models::Property;
use scaffolder::patch::RegistryTarget;
use scaffolder::properties::PropertyMap;

fn product_config() -> Config {
    let mut properties = PropertyMap::new();
    properties.insert(String::from("price"), Property::Number);
    Config::new(
        String::from("Product"),
        String::from("Products"),
        String::from("products"),
        String::from("productos"),
        String::from("fa-box"),
        properties,
    )
}

fn written_file<'a>(plan: &'a [Action], path: &str) -> &'a str {
    for a in plan {
        if let Action::WriteFile(p, text) = a {
            if p == path {
                return text;
            }
        }
    }
    panic!("no file written at {path}");
}

fn patch_text<'a>(plan: &'a [Action], target: RegistryTarget) -> &'a str {
    for a in plan {
        if let Action::Patch(t, text) = a {
            if *t == target {
                return text;
            }
        }
    }
    panic!("no patch for {target:?}");
}

#[test]
fn end_to_end_product_scenario() {
    let plan = create(&product_config(), Layout::Flat);

    // The data-model file declares the model and carries the property
    // with its kind in a comment.
    let model = written_file(&plan, "./src/app/shared/models/Product.model.ts");
    assert!(model.contains("export interface Product {"));
    assert!(model.contains("price"));
    assert!(model.contains("price : Number"));

    // The routing file references the route name and the API route name.
    let routing = written_file(&plan, "./src/app/views/products/products-routing.module.ts");
    assert!(routing.contains("RoutesEnum.Product;"));
    assert!(routing.contains("RoutesEnum.ProductApi;"));

    // Each registry gains one block referencing the configured names.
    let enums = patch_text(&plan, RegistryTarget::RouteEnum);
    assert!(enums.contains("Product = \"productos\","));
    assert!(enums.contains("ProductApi = \"products\","));

    let routes = patch_text(&plan, RegistryTarget::RouteTable);
    assert!(routes.contains("path: RoutesEnum.Product,"));
    assert!(routes.contains("./views/products/products.module"));
    assert!(routes.contains("ProductsModule"));

    let nav = patch_text(&plan, RegistryTarget::NavTree);
    assert!(nav.contains("name: RoutesEnum.Product,"));
    assert!(nav.contains("fa-box"));
}

#[test]
fn flat_plan_shape_and_order() {
    let plan = create(&product_config(), Layout::Flat);
    assert_eq!(plan.len(), 19);

    // Directories come first, in order: base, service, then the page dirs.
    match &plan[0] {
        Action::MakeDir(p) => assert_eq!(p, "./src/app/views/products"),
        other => panic!("expected a directory first, got {other:?}"),
    }
    match &plan[1] {
        Action::MakeDir(p) => assert_eq!(p, "./src/app/services/http/products"),
        other => panic!("expected the service directory, got {other:?}"),
    }
    let n_dirs = plan
        .iter()
        .filter(|a| matches!(a, Action::MakeDir(_)))
        .count();
    assert_eq!(n_dirs, 5);

    // Every directory creation precedes every file write and patch.
    let last_dir = plan
        .iter()
        .rposition(|a| matches!(a, Action::MakeDir(_)))
        .unwrap();
    assert_eq!(last_dir, 4);

    // The shared data-model file is written last.
    match plan.last().unwrap() {
        Action::WriteFile(p, _) => assert_eq!(p, "./src/app/shared/models/Product.model.ts"),
        other => panic!("expected the model file last, got {other:?}"),
    }
}

#[test]
fn full_layout_adds_modal_and_template_files() {
    let plan = create(&product_config(), Layout::Full);
    assert_eq!(plan.len(), 26);
    let paths: Vec<&str> = plan
        .iter()
        .filter_map(|a| match a {
            Action::MakeDir(p) | Action::WriteFile(p, _) => Some(p.as_str()),
            Action::Patch(..) => None,
        })
        .collect();
    assert!(paths.contains(&"./src/app/views/products/pages/modal"));
    assert!(paths.contains(&"./src/app/views/products/templates"));
    assert!(paths.contains(&"./src/app/views/products/pages/modal/modal.component.ts"));
    assert!(paths.contains(&"./src/app/views/products/templates/form.interface.ts"));
    assert!(paths.contains(&"./src/app/views/products/templates/form.template.ts"));
    assert!(paths.contains(&"./src/app/views/products/templates/list.temp.functions.ts"));

    let interface = written_file(&plan, "./src/app/views/products/templates/form.interface.ts");
    assert!(interface.contains("ProductForm"));
}

#[test]
fn model_name_is_title_of_section() {
    let mut properties = PropertyMap::new();
    properties.insert(String::from("age"), Property::Date);
    let config = Config::new(
        String::from("cliente"),
        String::from("clientes"),
        String::from("clientes"),
        String::from("clientes"),
        String::from("fa-user"),
        properties,
    );
    let plan = create(&config, Layout::Flat);
    let model = written_file(&plan, "./src/app/shared/models/cliente.model.ts");
    assert!(model.contains("export interface Cliente {"));
    assert!(model.contains("age : Date"));
    let enums = patch_text(&plan, RegistryTarget::RouteEnum);
    assert!(enums.contains("Cliente = \"clientes\","));
}

#[test]
fn properties_render_in_insertion_order() {
    let mut properties = PropertyMap::new();
    properties.insert(String::from("zeta"), Property::String);
    properties.insert(String::from("alpha"), Property::Related);
    let config = Config::new(
        String::from("Item"),
        String::from("Items"),
        String::from("items"),
        String::from("items"),
        String::from("fa-box"),
        properties,
    );
    let plan = create(&config, Layout::Flat);
    let model = written_file(&plan, "./src/app/shared/models/Item.model.ts");
    let zeta = model.find("zeta : String").unwrap();
    let alpha = model.find("alpha : Related").unwrap();
    assert!(zeta < alpha);
}
