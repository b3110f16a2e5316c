use regolith::Regolith;

#[test]
fn get_source_test() {
    let source = "^\\d+$".to_string();
    let r = Regolith::new(source.clone(), None).unwrap();

    assert_eq!(r.source(), source);

    let source2 = "a".to_string();
    let r2 = Regolith::new(source2.clone(), None).unwrap();

    assert_eq!(r2.source(), source2);
}

#[test]
fn get_flags_test() {
    let source = "^\\d+$".to_string();
    let r = Regolith::new(source.clone(), Some(String::from("i"))).unwrap();

    assert_eq!(r.flags(), String::from("i"));
    assert_ne!(r.flags(), String::from("m"));
}

#[test]
fn check_global_test() {
    let source = "^\\d+$".to_string();
    let r = Regolith::new(source, Some(String::from("g"))).unwrap();

    assert!(r.global());

    let source = "^\\d+$".to_string();
    let r = Regolith::new(source, Some(String::from("m"))).unwrap();

    assert!(!r.global());
}

#[test]
fn check_ignore_case_test() {
    let source = "^\\d+$".to_string();
    let r = Regolith::new(source, Some(String::from("i"))).unwrap();

    assert!(r.ignore_case());

    let source = "^\\d+$".to_string();
    let r = Regolith::new(source, Some(String::from("m"))).unwrap();

    assert!(!r.ignore_case());
}

#[test]
fn check_multiline_test() {
    let source = "^\\d+$".to_string();
    let r = Regolith::new(source, Some(String::from("m"))).unwrap();

    assert!(r.multiline());

    let source = "^\\d+$".to_string();
    let r = Regolith::new(source, Some(String::from("i"))).unwrap();

    assert!(!r.multiline());
}

#[test]
fn test_method_test() {
    let r = Regolith::new("foo".to_string(), None).unwrap();
    assert!(r.test("foobar".to_string()));
    assert!(!r.test("barbaz".to_string()));
}

#[test]
fn exec_method_test() {
    let r = Regolith::new("(foo)(bar)?".to_string(), None).unwrap();
    let result = r.exec("foobar".to_string());

    assert_eq!(
        result,
        Some(vec![
            "foobar".to_string(),
            "foo".to_string(),
            "bar".to_string()
        ])
    );

    let result_none = r.exec("baz".to_string());
    assert_eq!(result_none, None);

    // Missing optional group comes back as the empty string
    let result_partial = r.exec("foo".to_string());
    assert_eq!(
        result_partial,
        Some(vec!["foo".to_string(), "foo".to_string(), "".to_string()])
    );
}

#[test]
fn match_str_method_test() {
    // Non-global
    let r = Regolith::new("foo".to_string(), None).unwrap();
    let result = r.match_str("foofoo".to_string());
    assert_eq!(result, Some(vec!["foo".to_string()]));

    let result_none = r.match_str("bar".to_string());
    assert_eq!(result_none, None);

    // Global
    let r = Regolith::new("foo".to_string(), Some("g".to_string())).unwrap();
    let result = r.match_str("foofoo".to_string());
    assert_eq!(result, Some(vec!["foo".to_string(), "foo".to_string()]));
}

#[test]
fn replace_method_test() {
    // Non-global
    let r = Regolith::new("foo".to_string(), None).unwrap();
    let result = r.replace("foofoo".to_string(), "bar".to_string());
    assert_eq!(result, "barfoo");

    // Global
    let r = Regolith::new("foo".to_string(), Some("g".to_string())).unwrap();
    let result = r.replace("foofoo".to_string(), "bar".to_string());
    assert_eq!(result, "barbar");
}

#[test]
fn search_method_test() {
    let r = Regolith::new("foo".to_string(), None).unwrap();
    assert_eq!(r.search("barfoo".to_string()), 3);
    assert_eq!(r.search("barbaz".to_string()), -1);
}

#[test]
fn split_method_test() {
    let r = Regolith::new(",".to_string(), None).unwrap();
    let result = r.split("a,b,c".to_string(), None);

    assert_eq!(
        result,
        vec!["a".to_string(), "b".to_string(), "c".to_string()]
    );

    // With limit
    let result = r.split("a,b,c".to_string(), Some(2));
    assert_eq!(result, vec!["a".to_string(), "b,c".to_string()]);
}

#[test]
fn invalid_pattern_is_error() {
    let r = Regolith::new("foo(bar".to_string(), None);
    match r {
        Err(e) => assert!(!e.message.is_empty()),
        Ok(_) => panic!("expected an error"),
    }

    let ok = Regolith::new("foo(bar)".to_string(), None);
    assert!(ok.is_ok());
}

#[test]
fn flags_default_to_empty() {
    let r = Regolith::new("a".to_string(), None).unwrap();
    assert_eq!(r.flags(), "".to_string());
    assert!(!r.global());
    assert!(!r.ignore_case());
    assert!(!r.multiline());
}

#[test]
fn unrecognized_flags_are_ignored() {
    let r = Regolith::new("foo".to_string(), Some("xyu".to_string())).unwrap();
    assert_eq!(r.flags(), "xyu".to_string());
    assert!(r.test("foo".to_string()));
}

#[test]
fn ignore_case_flag_reaches_engine() {
    let r = Regolith::new("FOO".to_string(), Some("i".to_string())).unwrap();
    assert!(r.test("foo".to_string()));

    let r = Regolith::new("FOO".to_string(), None).unwrap();
    assert!(!r.test("foo".to_string()));
}

#[test]
fn multiline_flag_reaches_engine() {
    let r = Regolith::new("^bar".to_string(), Some("m".to_string())).unwrap();
    assert!(r.test("foo\nbar".to_string()));

    let r = Regolith::new("^bar".to_string(), None).unwrap();
    assert!(!r.test("foo\nbar".to_string()));
}

#[test]
fn dot_all_flag_reaches_engine() {
    let r = Regolith::new("a.b".to_string(), Some("s".to_string())).unwrap();
    assert!(r.test("a\nb".to_string()));

    let r = Regolith::new("a.b".to_string(), None).unwrap();
    assert!(!r.test("a\nb".to_string()));
}

#[test]
fn test_agrees_with_exec() {
    let r = Regolith::new("(foo)(bar)?".to_string(), None).unwrap();
    for input in ["foobar", "foo", "baz", ""] {
        assert_eq!(r.test(input.to_string()), r.exec(input.to_string()).is_some());
    }
}

#[test]
fn global_match_with_zero_matches_is_none() {
    let r = Regolith::new("foo".to_string(), Some("g".to_string())).unwrap();
    assert_eq!(r.match_str("barbaz".to_string()), None);
}

#[test]
fn replacement_group_references_pass_through() {
    let r = Regolith::new("(o)".to_string(), Some("g".to_string())).unwrap();
    assert_eq!(r.replace("foo".to_string(), "$1$1".to_string()), "foooo");
}

#[test]
fn search_finds_offset_zero() {
    let r = Regolith::new("foo".to_string(), None).unwrap();
    assert_eq!(r.search("foobar".to_string()), 0);
}

#[test]
fn split_limit_zero_means_no_limit() {
    let r = Regolith::new(",".to_string(), None).unwrap();
    assert_eq!(
        r.split("a,b,c".to_string(), Some(0)),
        vec!["a".to_string(), "b".to_string(), "c".to_string()]
    );
}

#[test]
fn split_without_match_yields_whole_input() {
    let r = Regolith::new(",".to_string(), None).unwrap();
    assert_eq!(r.split("abc".to_string(), None), vec!["abc".to_string()]);
}

#[test]
fn empty_pattern_matches_everywhere() {
    let r = Regolith::new("".to_string(), None).unwrap();
    assert!(r.test("".to_string()));
    assert!(r.test("abc".to_string()));
    assert_eq!(r.search("abc".to_string()), 0);
}

#[test]
fn same_build_same_results() {
    let a = Regolith::new("(fo+)".to_string(), Some("g".to_string())).unwrap();
    let b = Regolith::new("(fo+)".to_string(), Some("g".to_string())).unwrap();

    let input = "foo fooo bar".to_string();
    assert_eq!(a.test(input.clone()), b.test(input.clone()));
    assert_eq!(a.exec(input.clone()), b.exec(input.clone()));
    assert_eq!(a.match_str(input.clone()), b.match_str(input.clone()));
    assert_eq!(
        a.replace(input.clone(), "x".to_string()),
        b.replace(input.clone(), "x".to_string())
    );
    assert_eq!(a.search(input.clone()), b.search(input.clone()));
    assert_eq!(a.split(input.clone(), Some(2)), b.split(input.clone(), Some(2)));
    assert_eq!(a.split(input.clone(), None), b.split(input, None));
}
