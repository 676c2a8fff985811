use witness_builder::enumerate::WorkItem;
use witness_builder::enumerate::select_inputs;
use witness_builder::naming::derive_base_name;
use witness_builder::naming::join_path;
use witness_builder::naming::matches_input_suffix;
use witness_builder::naming::output_file_name;

fn bytes(s: &str) -> Vec<u8> {
    s.as_bytes().to_vec()
}

#[test]
fn recognizes_the_input_suffix() {
    assert!(matches_input_suffix(&bytes("a.json")));
    assert!(matches_input_suffix(&bytes("long_name.json")));
    assert!(matches_input_suffix(&bytes("a.b.json")));
    assert!(!matches_input_suffix(&bytes("c.txt")));
    assert!(!matches_input_suffix(&bytes("a.JSON")));
    assert!(!matches_input_suffix(&bytes("json")));
    assert!(!matches_input_suffix(&bytes(".json")));
    assert!(!matches_input_suffix(&bytes("a.jsonx")));
    assert!(!matches_input_suffix(&bytes("")));
}

#[test]
fn base_name_strips_the_extension() {
    assert_eq!(derive_base_name(&bytes("a.json")), Ok(bytes("a")));
    assert_eq!(derive_base_name(&bytes("a.b.json")), Ok(bytes("a.b")));
    assert_eq!(derive_base_name(&bytes("noext")), Ok(bytes("noext")));
    assert_eq!(derive_base_name(&bytes(".json")), Ok(bytes(".json")));
    assert_eq!(derive_base_name(&bytes("a.")), Ok(bytes("a")));
    assert!(derive_base_name(&bytes("")).is_err());
}

#[test]
fn artifact_name_is_stable_across_runs() {
    let first = output_file_name(&derive_base_name(&bytes("a.json")).unwrap());
    let second = output_file_name(&derive_base_name(&bytes("a.json")).unwrap());
    assert_eq!(first, bytes("a.wtns"));
    assert_eq!(first, second);
}

#[test]
fn artifact_names_do_not_collide() {
    let a = output_file_name(&bytes("a"));
    let b = output_file_name(&bytes("b"));
    let dotted = output_file_name(&bytes("a.b"));
    assert_ne!(a, b);
    assert_ne!(a, dotted);
    assert_ne!(b, dotted);
}

#[test]
fn join_resolves_against_a_directory() {
    assert_eq!(join_path(&bytes("out"), &bytes("a.wtns")), bytes("out/a.wtns"));
    assert_eq!(join_path(&bytes("in/dir"), &bytes("b.json")), bytes("in/dir/b.json"));
}

#[test]
fn work_item_keeps_name_and_stem() {
    let item = WorkItem::new(bytes("b.json")).unwrap();
    assert_eq!(item.file_name, bytes("b.json"));
    assert_eq!(item.base_name, bytes("b"));
    assert!(WorkItem::new(bytes("")).is_err());
}

#[test]
fn selection_keeps_only_matching_entries() {
    let names = vec![bytes("a.json"), bytes("b.json"), bytes("c.txt")];
    let items = select_inputs(&names);
    assert_eq!(items.len(), 2);
    assert_eq!(items[0].file_name, bytes("a.json"));
    assert_eq!(items[0].base_name, bytes("a"));
    assert_eq!(items[1].file_name, bytes("b.json"));
    assert_eq!(items[1].base_name, bytes("b"));
}

#[test]
fn selection_of_only_non_matching_entries_is_empty() {
    let names = vec![bytes("c.txt"), bytes("README"), bytes("notes.md"), bytes(".json")];
    let items = select_inputs(&names);
    assert!(items.is_empty());
}
