use unity::prelude::{Il2CppError, Il2CppResult, MethodInfo, OptionalMethod};
use unity::scan::{get_fn_arg_count, get_offset, is_argument, ScanInfo};

fn names(list: &[&str]) -> Vec<String> {
    list.iter().map(|n| n.to_string()).collect()
}

#[test]
fn arguments_are_counted_without_receiver_descriptor_and_underscores() {
    assert_eq!(get_fn_arg_count(&names(&[])), 0);
    assert_eq!(get_fn_arg_count(&names(&["this"])), 0);
    assert_eq!(get_fn_arg_count(&names(&["method_info"])), 0);
    assert_eq!(get_fn_arg_count(&names(&["this", "width", "height", "method_info"])), 2);
    assert_eq!(get_fn_arg_count(&names(&["a", "b", "method_info"])), 2);
    assert_eq!(get_fn_arg_count(&names(&["gt", "ty"])), 2);
    assert_eq!(get_fn_arg_count(&names(&["_unused", "value", "_", "__x"])), 1);
    assert_eq!(get_fn_arg_count(&names(&["this_", "method_infos", "This", "x_"])), 4);
}

#[test]
fn single_names() {
    assert!(is_argument(&"value".to_string()));
    assert!(is_argument(&"thisx".to_string()));
    assert!(is_argument(&"\u{e9}t\u{e9}".to_string()));
    assert!(is_argument(&String::new()));
    assert!(!is_argument(&"this".to_string()));
    assert!(!is_argument(&"method_info".to_string()));
    assert!(!is_argument(&"_value".to_string()));
    assert!(!is_argument(&"_".to_string()));
}

#[test]
fn forced_count_overrides_the_declared_one() {
    let declared = ScanInfo { namespace: "App", class: "Unit", method: "Heal", forced_arg_count: 0 };
    assert_eq!(declared.get_arg_count(3), 3);
    assert_eq!(declared.get_arg_count(0), 0);
    let forced = ScanInfo { namespace: "App", class: "Unit", method: "Heal", forced_arg_count: 2 };
    assert_eq!(forced.get_arg_count(3), 2);
    assert_eq!(forced.get_arg_count(0), 2);
}

#[test]
fn offset_of_code_in_the_text() {
    let mut m = MethodInfo::new();
    m.method_ptr = 0x7100_4520;
    assert_eq!(get_offset(&m, 0x7100_0000), 0x4520);
    assert_eq!(get_offset(&m, 0x7100_4520), 0);
}

#[test]
fn prelude_brings_the_common_names() {
    let none: OptionalMethod = None;
    assert!(none.is_none());
    let r: Il2CppResult<MethodInfo> = Err(Il2CppError::MissingMethod);
    assert!(matches!(r, Err(Il2CppError::MissingMethod)));
}
