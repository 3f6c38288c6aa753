use result_processor::args::PreprocessedArgs;

fn entry(name: &str, value: &str) -> (String, String) {
    (name.to_string(), value.to_string())
}

#[test]
fn arguments_keep_their_entries_in_order() {
    let entries = vec![entry("b", "1"), entry("a", "\"x\""), entry("", "null")];
    let args = PreprocessedArgs::from_entries(entries.clone()).unwrap();
    assert_eq!(args.entries(), &entries);
    assert_eq!(args.len(), 3);
    let none = PreprocessedArgs::from_entries(Vec::new()).unwrap();
    assert_eq!(none.len(), 0);
}

#[test]
fn a_name_cannot_stand_twice() {
    assert_eq!(PreprocessedArgs::from_entries(vec![entry("a", "1"), entry("a", "1")]), None);
    assert_eq!(
        PreprocessedArgs::from_entries(vec![entry("a", "1"), entry("b", "2"), entry("a", "3")]),
        None
    );
    assert_eq!(
        PreprocessedArgs::from_entries(vec![entry("b", "1"), entry("a", "2"), entry("a", "2")]),
        None
    );
    assert!(PreprocessedArgs::from_entries(vec![entry("a", "1"), entry("A", "1")]).is_some());
}
