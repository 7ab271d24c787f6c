use mondrian_rest::api::names::{Cut, Drilldown, LevelName, Measure, NameError, Property};

#[test]
fn test_level_name() {
    let level = LevelName::new("Geography", "Geography", "County");
    let level_from_vec_1 = LevelName::from_vec(vec!["Geography", "Geography", "County"]).unwrap();
    let level_from_vec_2 = LevelName::from_vec(vec!["Geography", "County"]).unwrap();

    assert_eq!(level, level_from_vec_1);
    assert_eq!(level, level_from_vec_2);
}

#[test]
#[should_panic]
fn test_level_name_bad_1() {
    LevelName::from_vec(vec!["Geography", "Geography", "County", "County"]).unwrap();
}

#[test]
#[should_panic]
fn test_level_name_bad_2() {
    LevelName::from_vec(vec!["County"]).unwrap();
}

#[test]
fn test_drilldown() {
    let drilldown = Drilldown::new("Geography", "Geography", "County");
    let drilldown_from_vec = Drilldown::from_vec(vec!["Geography", "County"]).unwrap();

    assert_eq!(drilldown, drilldown_from_vec);
}

#[test]
fn test_cut() {
    let cut = Cut::new("Geography", "Geography", "County", vec!["1", "2"]);
    let cut_from_vec = Cut::from_vec(vec!["Geography", "County"], vec!["1", "2"]).unwrap();

    assert_eq!(cut, cut_from_vec);
}

#[test]
fn test_property() {
    let property = Property::new("Geography", "Geography", "County", "name_en");
    let property_from_vec = Property::from_vec(vec!["Geography", "County", "name_en"]).unwrap();

    assert_eq!(property, property_from_vec);
}

#[test]
fn test_level_name_serialize_round_trip() {
    let two = LevelName::from_vec(vec!["Geography", "County"]).unwrap();
    assert_eq!(two.serialize(), "[Geography].[Geography].[County]");

    let three = LevelName::from_vec(vec!["Geography", "Altern", "County"]).unwrap();
    assert_eq!(three.serialize(), "[Geography].[Altern].[County]");
}

#[test]
fn test_from_vec_wrong_counts_fail() {
    assert!(LevelName::from_vec(vec!["County"]).is_err());
    assert!(LevelName::from_vec(vec!["Geography", "Geography", "County", "County"]).is_err());
    assert!(LevelName::from_vec(Vec::new()).is_err());
}

#[test]
fn test_naming_convention_error_carries_segments() {
    let err = LevelName::from_vec(vec!["County"]).unwrap_err();
    match err {
        NameError::NamingConvention { segments } => {
            assert_eq!(segments, vec!["County".to_string()]);
        }
        other => panic!("unexpected error: {:?}", other),
    }
}

#[test]
fn test_name_error_message() {
    let err = LevelName::from_vec(vec!["County"]).unwrap_err();
    assert_eq!(
        err.message(),
        "Dimension County does not follow naming convention"
    );
}

#[test]
fn test_cut_serialize_single_member() {
    let cut = Cut::new("Geography", "Geography", "County", vec!["1"]);
    assert_eq!(cut.serialize(), "[Geography].[Geography].[County].&[1]");
}

#[test]
fn test_cut_serialize_several_members() {
    let cut = Cut::new("Geography", "Geography", "County", vec!["1", "2"]);
    assert_eq!(
        cut.serialize(),
        "{[Geography].[Geography].[County].&[1],[Geography].[Geography].[County].&[2]}"
    );
}

#[test]
fn test_cut_from_vec_empty_members_fails() {
    let err = Cut::from_vec(vec!["Geography", "County"], Vec::new()).unwrap_err();
    assert_eq!(err.message(), "No members found");
}

#[test]
fn test_property_serialize() {
    let property = Property::new("Geography", "Geography", "County", "name_en");
    assert_eq!(
        property.serialize(),
        "[Geography].[Geography].[County].[name_en]"
    );
}

#[test]
fn test_measure_serialize() {
    let measure = Measure::new("Total Units");
    assert_eq!(measure.serialize(), "Total Units");
}

#[test]
fn test_level_name_parse_plain_and_bracketed() {
    let plain = LevelName::parse("Geography.County").unwrap();
    assert_eq!(plain, LevelName::new("Geography", "Geography", "County"));

    let bracketed = LevelName::parse("[Geography].[Geography].[County]").unwrap();
    assert_eq!(bracketed, LevelName::new("Geography", "Geography", "County"));

    assert!(LevelName::parse("County").is_err());
}

#[test]
fn test_cut_parse_with_member_suffix() {
    let cut = Cut::parse("Geography.State.1,2,3").unwrap();
    let expected = Cut::new("Geography", "Geography", "State", vec!["1", "2", "3"]);
    assert_eq!(cut, expected);
}

#[test]
fn test_property_parse() {
    let property = Property::parse("Geography.County.name_en").unwrap();
    assert_eq!(
        property,
        Property::new("Geography", "Geography", "County", "name_en")
    );
}

#[test]
fn test_property_drill_level() {
    let property = Property::new("Geography", "Geography", "County", "name_en");
    assert_eq!(
        property.drill_level(),
        Drilldown::new("Geography", "Geography", "County")
    );
}
