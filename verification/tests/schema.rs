use mondrian_rest::schema::{
    CubeDescription, Dimension, Hierarchy, Key, Level, Measure, Member, Members, NamedSet,
};

fn level(name: &str, full_name: &str, depth: u32, properties: Vec<&str>) -> Level {
    Level {
        name: name.to_owned(),
        full_name: full_name.to_owned(),
        depth,
        caption: name.to_owned(),
        annotations: Vec::new(),
        properties: properties.into_iter().map(|p| p.to_owned()).collect(),
    }
}

fn dimension(name: &str, levels: Vec<Level>) -> Dimension {
    Dimension {
        name: name.to_owned(),
        caption: name.to_owned(),
        annotations: Vec::new(),
        hierarchies: vec![Hierarchy {
            name: name.to_owned(),
            has_all: true,
            all_member_name: format!("All {}", name),
            levels,
        }],
    }
}

fn measure(name: &str, aggregator: Option<&str>) -> Measure {
    Measure {
        name: name.to_owned(),
        caption: name.to_owned(),
        annotations: Vec::new(),
        full_name: format!("[Measures].[{}]", name),
        aggregator: aggregator.map(|a| a.to_owned()),
    }
}

#[test]
fn test_matrix_covers_dimensions_measures_properties() {
    let cube = CubeDescription {
        name: "mycube".to_owned(),
        dimensions: vec![
            dimension("First", vec![level("A", "A", 0, vec!["P"])]),
            dimension("Second", vec![level("B", "B", 0, Vec::new())]),
        ],
        measures: vec![measure("M", None)],
        named_sets: Vec::new(),
        annotations: Vec::new(),
    };

    let test = cube.test_drill_mea_prop();
    assert_eq!(test.name, "mycube");
    assert_eq!(test.dims, vec!["A".to_string(), "B".to_string()]);
    assert_eq!(test.meas, vec!["M".to_string()]);
    assert_eq!(test.props, vec!["A.[P]".to_string()]);
}

#[test]
fn test_matrix_skips_dimension_without_levels() {
    let cube = CubeDescription {
        name: "mycube".to_owned(),
        dimensions: vec![
            dimension("Empty", Vec::new()),
            dimension("Second", vec![level("B", "B", 0, Vec::new())]),
        ],
        measures: Vec::new(),
        named_sets: Vec::new(),
        annotations: Vec::new(),
    };

    let test = cube.test_drill_mea_prop();
    assert_eq!(test.dims, vec!["B".to_string()]);
    assert!(test.meas.is_empty());
    assert!(test.props.is_empty());
}

#[test]
fn test_matrix_display() {
    let cube = CubeDescription {
        name: "mycube".to_owned(),
        dimensions: vec![dimension("First", vec![level("A", "A", 0, vec!["P"])])],
        measures: vec![measure("M", None)],
        named_sets: Vec::new(),
        annotations: Vec::new(),
    };
    let test = cube.test_drill_mea_prop();
    assert_eq!(
        test.display(),
        "Test Cube: mycube\n  Dimensions, Hierarchies, and Levels:\n    A\n  Measures:\n    M\n  Properties:\n    A.[P]\n"
    );
}

#[test]
fn test_cube_display_skips_synthetic_top_level() {
    let cube = CubeDescription {
        name: "mycube".to_owned(),
        dimensions: vec![dimension(
            "Geography",
            vec![
                level("(All)", "[Geography].[(All)]", 0, Vec::new()),
                level("County", "[Geography].[County]", 1, vec!["name_en"]),
            ],
        )],
        measures: vec![measure("units", Some("sum"))],
        named_sets: vec![NamedSet {
            name: "Top Counties".to_owned(),
            dimension: "Geography".to_owned(),
            hierarchy: "Geography".to_owned(),
            level: "County".to_owned(),
            annotations: Vec::new(),
        }],
        annotations: vec![("source".to_owned(), "census".to_owned())],
    };
    let shown = cube.display();
    assert_eq!(
        shown,
        "Cube: mycube\n\
         \x20 (source: census)\n\
         \x20 Dimensions, Hierarchies, and Levels:\n\
         \x20   [Geography].[County]\n\
         \x20     name_en (property)\n\
         \x20 Named Sets:\n\
         \x20   Top Counties: [Geography].[Geography].[County]\n\
         \x20 Measures:\n\
         \x20   units | agg: sum\n"
    );
    assert!(!shown.contains("(All)"));
}

#[test]
fn test_members_display_with_text_and_integer_keys() {
    let members = Members {
        name: "County".to_owned(),
        caption: "County".to_owned(),
        members: vec![
            Member {
                name: "Anytown".to_owned(),
                full_name: "[Geography].[County].[Anytown]".to_owned(),
                caption: "Anytown".to_owned(),
                key: Key::Int(-17),
                is_all_member: false,
                is_drillable: true,
                depth: 1,
                num_children: 0,
                parent_name: "(All)".to_owned(),
                level_name: "County".to_owned(),
                children: Vec::new(),
            },
            Member {
                name: "Other".to_owned(),
                full_name: "[Geography].[County].[Other]".to_owned(),
                caption: "Other".to_owned(),
                key: Key::Text("oth".to_owned()),
                is_all_member: false,
                is_drillable: false,
                depth: 1,
                num_children: 0,
                parent_name: "(All)".to_owned(),
                level_name: "County".to_owned(),
                children: Vec::new(),
            },
        ],
    };
    assert_eq!(
        members.display(),
        "Members of Level County:\n&-17: Anytown\n&oth: Other\n"
    );
}

#[test]
fn test_key_display() {
    assert_eq!(Key::Int(0).display(), "0");
    assert_eq!(Key::Int(42).display(), "42");
    assert_eq!(Key::Int(-42).display(), "-42");
    assert_eq!(Key::Int(i64::MIN).display(), "-9223372036854775808");
    assert_eq!(Key::Text("abc".to_owned()).display(), "abc");
}
