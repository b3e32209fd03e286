use linked_hash_map::LinkedHashMap;
use mmlx::note::{Note, ParamValue};
use mmlx::scope::apply_scope;

fn set(key: &str, value: ParamValue) -> Note {
    Note::ParamSetter { key: key.to_string(), value }
}

fn atom() -> Note {
    Note::Atom { midi: 60, duration: 322_560, parameters: Vec::new() }
}

fn keys(m: &LinkedHashMap<String, ParamValue>) -> Vec<(String, ParamValue)> {
    m.iter().map(|(k, v)| (k.clone(), v.duplicate())).collect()
}

#[test]
fn serial_setters_persist_and_branches_do_not_leak() {
    let mut active: LinkedHashMap<String, ParamValue> = LinkedHashMap::new();
    active.insert("volume".to_string(), ParamValue::Number(1));
    let song = Note::Serial(vec![
        set("tempo", ParamValue::Number(2)),
        atom(),
        Note::ForkSequence(vec![set("gate", ParamValue::Number(3)), atom()]),
        Note::Parallel(vec![set("duty", ParamValue::Number(4)), atom()]),
        Note::Serial(vec![set("volume", ParamValue::Number(5))]),
        set("tempo", ParamValue::Unset),
    ]);
    apply_scope(&song, &mut active);
    assert_eq!(keys(&active), vec![("volume".to_string(), ParamValue::Number(5))]);
}

#[test]
fn resetting_a_key_moves_it_last() {
    let mut active: LinkedHashMap<String, ParamValue> = LinkedHashMap::new();
    apply_scope(&set("tempo", ParamValue::Number(1)), &mut active);
    apply_scope(&set("gate", ParamValue::Number(2)), &mut active);
    apply_scope(&set("tempo", ParamValue::Number(3)), &mut active);
    assert_eq!(
        keys(&active),
        vec![("gate".to_string(), ParamValue::Number(2)), ("tempo".to_string(), ParamValue::Number(3))]
    );
}
