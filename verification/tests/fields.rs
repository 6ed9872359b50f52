use alanthinker_dynamic_get_field_macro::decl::{DataShape, DeriveInput};
use alanthinker_dynamic_get_field_macro::derive_dynamic_get;
use alanthinker_dynamic_get_field_macro::fields::render_accessors;
use alanthinker_dynamic_get_field_macro::MacroError;

fn named(name: &str, fields: &[&str]) -> DeriveInput {
    DeriveInput {
        name: name.to_string(),
        data: DataShape::NamedStruct {
            fields: fields.iter().map(|f| f.to_string()).collect(),
        },
    }
}

fn of_shape(data: DataShape) -> DeriveInput {
    DeriveInput { name: "Shape".to_string(), data }
}

const PERSON: &str = "impl DynamicGetter for Person {
    fn get_field(&self, name: &str) -> Option<&dyn std::any::Any> {
        match name {
            \"name\" => Some(&self.name as &dyn std::any::Any),
            \"age\" => Some(&self.age as &dyn std::any::Any),
            _ => None,
        }
    }

    fn has_field(&self, name: &str) -> bool {
        match name {
            \"name\" => true,
            \"age\" => true,
            _ => false,
        }
    }

    fn field_names(&self) -> Vec<String> {
        vec![
            \"name\".to_string(),
            \"age\".to_string(),
        ]
    }
}
";

const EMPTY: &str = "impl DynamicGetter for Empty {
    fn get_field(&self, name: &str) -> Option<&dyn std::any::Any> {
        match name {
            _ => None,
        }
    }

    fn has_field(&self, name: &str) -> bool {
        match name {
            _ => false,
        }
    }

    fn field_names(&self) -> Vec<String> {
        vec![
        ]
    }
}
";

#[test]
fn accessors_of_a_struct_with_two_fields() {
    assert_eq!(derive_dynamic_get(&named("Person", &["name", "age"])), Ok(PERSON.to_string()));
}

#[test]
fn accessors_of_a_struct_without_fields() {
    assert_eq!(derive_dynamic_get(&named("Empty", &[])), Ok(EMPTY.to_string()));
}

#[test]
fn render_accessors_is_what_the_derive_returns() {
    let fields = vec!["name".to_string(), "age".to_string()];
    assert_eq!(render_accessors("Person", &fields), PERSON);
}

#[test]
fn tuple_struct_is_refused() {
    assert_eq!(derive_dynamic_get(&of_shape(DataShape::TupleStruct)), Err(MacroError::OnlyNamedFields));
}

#[test]
fn unit_struct_is_refused() {
    assert_eq!(derive_dynamic_get(&of_shape(DataShape::UnitStruct)), Err(MacroError::OnlyNamedFields));
}

#[test]
fn enum_is_refused() {
    assert_eq!(derive_dynamic_get(&of_shape(DataShape::Enum)), Err(MacroError::OnlyStructs));
}

#[test]
fn union_is_refused() {
    assert_eq!(derive_dynamic_get(&of_shape(DataShape::Union)), Err(MacroError::OnlyStructs));
}

#[test]
fn accessors_parse_as_an_impl_of_the_trait() {
    let code = derive_dynamic_get(&named("Person", &["name", "age", "email"])).unwrap();
    let item: syn::ItemImpl = syn::parse_str(&code).unwrap();
    let (_, path, _) = item.trait_.as_ref().unwrap();
    assert!(path.is_ident("DynamicGetter"));
    match &*item.self_ty {
        syn::Type::Path(ty) => assert!(ty.path.is_ident("Person")),
        _ => panic!("the impl is not written for a path"),
    }
    let methods: Vec<String> = item
        .items
        .iter()
        .map(|entry| match entry {
            syn::ImplItem::Fn(method) => method.sig.ident.to_string(),
            _ => panic!("an item of the impl is no method"),
        })
        .collect();
    assert_eq!(methods, ["get_field", "has_field", "field_names"]);
}

fn match_arms(method: &syn::ImplItemFn) -> Vec<String> {
    let matched = match method.block.stmts.last() {
        Some(syn::Stmt::Expr(syn::Expr::Match(matched), _)) => matched,
        _ => panic!("the method does not end in a match"),
    };
    matched
        .arms
        .iter()
        .map(|arm| match &arm.pat {
            syn::Pat::Lit(lit) => match &lit.lit {
                syn::Lit::Str(text) => text.value(),
                _ => panic!("an arm matches no string"),
            },
            syn::Pat::Wild(_) => "_".to_string(),
            _ => panic!("an arm matches neither a string nor the rest"),
        })
        .collect()
}

#[test]
fn each_field_has_an_arm_in_declaration_order() {
    let code = derive_dynamic_get(&named("Person", &["name", "age", "email"])).unwrap();
    let item: syn::ItemImpl = syn::parse_str(&code).unwrap();
    for index in 0..2 {
        match &item.items[index] {
            syn::ImplItem::Fn(method) => {
                assert_eq!(match_arms(method), ["name", "age", "email", "_"]);
            }
            _ => panic!("an item of the impl is no method"),
        }
    }
}

#[test]
fn raw_identifier_keeps_its_prefix_in_the_name() {
    let code = derive_dynamic_get(&named("Token", &["r#type"])).unwrap();
    assert!(code.contains("\"r#type\" => Some(&self.r#type as &dyn std::any::Any),"));
    let item: syn::ItemImpl = syn::parse_str(&code).unwrap();
    match &item.items[1] {
        syn::ImplItem::Fn(method) => assert_eq!(match_arms(method), ["r#type", "_"]),
        _ => panic!("an item of the impl is no method"),
    }
}
