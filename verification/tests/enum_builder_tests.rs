use enum_builder::Annotation;
use enum_builder::BuilderAction;
use enum_builder::BuilderArg;
use enum_builder::Decl;
use enum_builder::DeclKind;
use enum_builder::TargetItem;
use enum_builder::Variant;
use enum_builder::build_enum;
use enum_builder::collect_variants;
use enum_builder::plan_expansion;
use enum_builder::render_variant;
use enum_builder::resolve_scan_root;
use enum_builder::synthesize_enum;
use enum_builder::trim_quote_marks;
use enum_builder::valid_variant;

fn marker(group: &str) -> Annotation {
    Annotation {
        is_list: true,
        path: "enum_builder_variant".to_string(),
        args: group.to_string(),
    }
}

fn decl(kind: DeclKind, name: &str, generics: &str, attrs: Vec<Annotation>) -> Decl {
    Decl {
        kind,
        name: name.to_string(),
        generics: generics.to_string(),
        attrs,
    }
}

fn path_arg(value: &str) -> BuilderArg {
    BuilderArg {
        name: "path".to_string(),
        value: value.to_string(),
    }
}

#[test]
fn test_enum_builder() {
    let decls = vec![
        decl(DeclKind::Struct, "Dog", "", vec![marker("Animal")]),
        decl(DeclKind::Struct, "Cow", "", vec![marker("Animal")]),
        decl(DeclKind::Struct, "Fish", "", vec![marker("Animal")]),
        decl(DeclKind::Alias, "Snake", "<'a>", vec![marker("Animal")]),
        decl(DeclKind::Struct, "Chicken", "<'a>", vec![marker("Animal")]),
        decl(DeclKind::Struct, "Goat", "", vec![marker("Animal")]),
    ];
    let out = build_enum(&"Animal".to_string(), &decls);
    assert_eq!(
        out,
        "#[enum_dispatch]\nenum Animal<'a> { Dog(Dog),\nCow(Cow),\nFish(Fish),\nSnake(Snake<'a>),\nChicken(Chicken<'a>),\nGoat(Goat) }"
    );
}

#[test]
fn three_files_one_foreign_group() {
    // Three scanned files declare Dog and Cow for Animal and Cat for Pet;
    // only the first two become variants, in discovery order.
    let file_a = vec![decl(DeclKind::Struct, "Dog", "", vec![marker("Animal")])];
    let file_b = vec![decl(DeclKind::Struct, "Cow", "", vec![marker("Animal")])];
    let file_c = vec![decl(DeclKind::Struct, "Cat", "", vec![marker("Pet")])];
    let mut decls = Vec::new();
    decls.extend(file_a);
    decls.extend(file_b);
    decls.extend(file_c);
    let out = build_enum(&"Animal".to_string(), &decls);
    assert_eq!(out, "#[enum_dispatch]\nenum Animal<'a> { Dog(Dog),\nCow(Cow) }");
    assert!(!out.contains("Cat"));
}

#[test]
fn lifetime_parameter_preserved() {
    let decls = vec![decl(
        DeclKind::Struct,
        "Chicken",
        "<'a>",
        vec![marker("Animal")],
    )];
    let out = build_enum(&"Animal".to_string(), &decls);
    assert_eq!(out, "#[enum_dispatch]\nenum Animal<'a> { Chicken(Chicken<'a>) }");
}

#[test]
fn type_alias_candidate() {
    let decls = vec![decl(DeclKind::Alias, "Snake", "<'a>", vec![marker("Animal")])];
    let out = build_enum(&"Animal".to_string(), &decls);
    assert_eq!(out, "#[enum_dispatch]\nenum Animal<'a> { Snake(Snake<'a>) }");
}

#[test]
fn enum_and_union_candidates() {
    let decls = vec![
        decl(DeclKind::Enum, "Dog", "", vec![marker("Animal")]),
        decl(DeclKind::Union, "BarnAnimal", "", vec![marker("Animal")]),
    ];
    let out = build_enum(&"Animal".to_string(), &decls);
    assert_eq!(
        out,
        "#[enum_dispatch]\nenum Animal<'a> { Dog(Dog),\nBarnAnimal(BarnAnimal) }"
    );
}

#[test]
fn zero_candidates_give_empty_enum() {
    let decls: Vec<Decl> = Vec::new();
    let out = build_enum(&"Animal".to_string(), &decls);
    assert_eq!(out, "#[enum_dispatch]\nenum Animal<'a> {  }");
}

#[test]
fn duplicate_names_both_kept() {
    let decls = vec![
        decl(DeclKind::Struct, "Dog", "", vec![marker("Animal")]),
        decl(DeclKind::Struct, "Dog", "", vec![marker("Animal")]),
    ];
    let out = build_enum(&"Animal".to_string(), &decls);
    assert_eq!(out, "#[enum_dispatch]\nenum Animal<'a> { Dog(Dog),\nDog(Dog) }");
}

#[test]
fn marker_recognized() {
    let group = "Animal".to_string();
    assert!(valid_variant(&group, &vec![marker("Animal")]));
}

#[test]
fn marker_needs_list_shape() {
    // A bare `enum_builder_variant` annotation without arguments is not the
    // marker's shape.
    let group = "Animal".to_string();
    let attrs = vec![Annotation {
        is_list: false,
        path: "enum_builder_variant".to_string(),
        args: "Animal".to_string(),
    }];
    assert!(!valid_variant(&group, &attrs));
}

#[test]
fn marker_needs_exact_path() {
    let group = "Animal".to_string();
    let attrs = vec![Annotation {
        is_list: true,
        path: "enum_builder_variants".to_string(),
        args: "Animal".to_string(),
    }];
    assert!(!valid_variant(&group, &attrs));
}

#[test]
fn marker_needs_exact_group() {
    let group = "Animal".to_string();
    assert!(!valid_variant(&group, &vec![marker("Pet")]));
    assert!(!valid_variant(&group, &vec![marker("animal")]));
}

#[test]
fn marker_found_among_other_annotations() {
    let group = "Animal".to_string();
    let attrs = vec![
        Annotation {
            is_list: true,
            path: "derive".to_string(),
            args: "Debug".to_string(),
        },
        marker("Animal"),
    ];
    assert!(valid_variant(&group, &attrs));
}

#[test]
fn non_type_shapes_filtered() {
    // A function, trait or constant bearing a marker-like annotation is
    // never included as a variant.
    let decls = vec![
        decl(DeclKind::Other, "speak", "", vec![marker("Animal")]),
        decl(DeclKind::Struct, "Dog", "", vec![marker("Animal")]),
        decl(DeclKind::Other, "AnimalSound", "", vec![marker("Animal")]),
    ];
    let vs = collect_variants(&"Animal".to_string(), &decls);
    assert_eq!(vs.len(), 1);
    assert_eq!(vs[0].name, "Dog");
    assert_eq!(vs[0].generics, "");
}

#[test]
fn render_variant_wraps_payload() {
    let v = Variant {
        name: "Chicken".to_string(),
        generics: "<'a>".to_string(),
    };
    assert_eq!(render_variant(&v), "Chicken(Chicken<'a>)");
}

#[test]
fn synthesize_joins_in_order() {
    let vs = vec![
        Variant {
            name: "Dog".to_string(),
            generics: "".to_string(),
        },
        Variant {
            name: "Cow".to_string(),
            generics: "".to_string(),
        },
    ];
    let out = synthesize_enum(&"Animal".to_string(), &vs);
    assert_eq!(out, "#[enum_dispatch]\nenum Animal<'a> { Dog(Dog),\nCow(Cow) }");
}

#[test]
fn trim_quote_marks_strips_literal_quotes() {
    assert_eq!(trim_quote_marks(&"\"animals/\"".to_string()), "animals/");
    assert_eq!(trim_quote_marks(&"animals.rs".to_string()), "animals.rs");
    assert_eq!(trim_quote_marks(&"\"\"".to_string()), "");
    assert_eq!(trim_quote_marks(&"\"a\"b\"".to_string()), "a\"b");
}

#[test]
fn scan_root_defaults_to_invoking_dir() {
    let root = resolve_scan_root(&"src/animals".to_string(), &Vec::new());
    assert_eq!(root, "src/animals");
}

#[test]
fn path_argument_joins_relative_suffix() {
    let args = vec![path_arg("\"subdir\"")];
    let root = resolve_scan_root(&"src".to_string(), &args);
    assert_eq!(root, "src/subdir");
}

#[test]
fn other_argument_names_ignored() {
    let args = vec![
        BuilderArg {
            name: "depth".to_string(),
            value: "\"3\"".to_string(),
        },
        path_arg("\"animals\""),
        BuilderArg {
            name: "mode".to_string(),
            value: "\"strict\"".to_string(),
        },
    ];
    let root = resolve_scan_root(&"src".to_string(), &args);
    assert_eq!(root, "src/animals");
}

#[test]
fn path_arguments_compose_in_order() {
    let args = vec![path_arg("\"a\""), path_arg("\"b\"")];
    let root = resolve_scan_root(&"src".to_string(), &args);
    assert_eq!(root, "src/a/b");
}

#[test]
fn plan_scans_enum_target() {
    let dir = Some("src".to_string());
    let target = TargetItem {
        is_enum: true,
        name: "Animal".to_string(),
    };
    match plan_expansion(&dir, &vec![path_arg("\"animals\"")], &target) {
        BuilderAction::Scan(root) => assert_eq!(root, "src/animals"),
        BuilderAction::Keep => panic!("an enum target with a known location must be scanned"),
    }
}

#[test]
fn non_enum_target_kept_unchanged() {
    let dir = Some("src".to_string());
    let target = TargetItem {
        is_enum: false,
        name: "Animal".to_string(),
    };
    assert!(matches!(
        plan_expansion(&dir, &Vec::new(), &target),
        BuilderAction::Keep
    ));
}

#[test]
fn unknown_call_site_kept_unchanged() {
    let target = TargetItem {
        is_enum: true,
        name: "Animal".to_string(),
    };
    assert!(matches!(
        plan_expansion(&None, &Vec::new(), &target),
        BuilderAction::Keep
    ));
}
