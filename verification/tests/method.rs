use unity::il2cpp::method::{clone_name, clone_parameters, invocation_result, MethodInfo, ParameterInfo};
use unity::il2cpp::class::Il2CppReflectionType;
use unity::il2cpp::Il2CppType;
use unity::Il2CppError;

fn sample() -> MethodInfo {
    MethodInfo {
        address: 0x900,
        method_ptr: 0x1000,
        invoker_method: 0x2000,
        name: Some("Update".to_string()),
        class: Some(0x3000),
        return_type: 0x4000,
        parameters: vec![
            ParameterInfo {
                name: Some("delta".to_string()),
                position: 0,
                token: 0x0800_0001,
                parameter_type: Il2CppType { data: 0x5000, bits: 1 },
            },
            ParameterInfo {
                name: None,
                position: 1,
                token: 0x0800_0002,
                parameter_type: Il2CppType { data: 0x6000, bits: 2 },
            },
        ],
        info_or_definition: 0x7000,
        generic_method_or_container: 0x8000,
        token: 0x0600_0010,
        flags: 0x86,
        iflags: 3,
        slot: 12,
        parameters_count: 2,
        bitflags: 5,
    }
}

#[test]
fn new_method_is_all_zero() {
    let m = MethodInfo::new();
    assert_eq!(m.address, 0);
    assert_eq!(m.method_ptr, 0);
    assert_eq!(m.invoker_method, 0);
    assert_eq!(m.name, None);
    assert_eq!(m.class, None);
    assert_eq!(m.return_type, 0);
    assert!(m.parameters.is_empty());
    assert_eq!(m.info_or_definition, 0);
    assert_eq!(m.generic_method_or_container, 0);
    assert_eq!(m.token, 0);
    assert_eq!(m.flags, 0);
    assert_eq!(m.iflags, 0);
    assert_eq!(m.slot, 0);
    assert_eq!(m.parameters_count, 0);
    assert_eq!(m.bitflags, 0);
    assert_eq!(m.get_name(), None);
    assert!(m.get_parameters().is_empty());
    assert!(!m.can_invoke());
}

#[test]
fn new_from_keeps_code_and_signature_and_clears_the_rest() {
    let m = MethodInfo::new_from(sample());
    assert_eq!(m.address, 0);
    assert_eq!(m.method_ptr, 0x1000);
    assert_eq!(m.name, Some("Update".to_string()));
    assert_eq!(m.class, Some(0x3000));
    assert_eq!(m.return_type, 0x4000);
    assert_eq!(m.parameters.len(), 2);
    assert_eq!(m.parameters[0].name, Some("delta".to_string()));
    assert_eq!(m.info_or_definition, 0x7000);
    assert_eq!(m.generic_method_or_container, 0x8000);
    assert_eq!(m.parameters_count, 2);
    assert_eq!(m.invoker_method, 0);
    assert_eq!(m.token, 0);
    assert_eq!(m.flags, 0);
    assert_eq!(m.iflags, 0);
    assert_eq!(m.slot, 0);
    assert_eq!(m.bitflags, 0);
    assert!(!m.can_invoke());
}

#[test]
fn names_of_method_and_parameters() {
    let m = sample();
    assert_eq!(m.get_name(), Some("Update".to_string()));
    let parameters = m.get_parameters();
    assert_eq!(parameters.len(), 2);
    assert_eq!(parameters[0].get_name(), Some("delta".to_string()));
    assert_eq!(parameters[1].get_name(), None);
    assert_eq!(parameters[1].position, 1);
    assert_eq!(clone_name(&None), None);
    assert_eq!(clone_name(&Some("x".to_string())), Some("x".to_string()));
}

#[test]
fn clone_of_a_method_holds_the_same() {
    let m = sample();
    let c = m.clone();
    assert_eq!(c.address, 0x900);
    assert_eq!(c.method_ptr, m.method_ptr);
    assert_eq!(c.invoker_method, m.invoker_method);
    assert_eq!(c.name, m.name);
    assert_eq!(c.class, m.class);
    assert_eq!(c.token, m.token);
    assert_eq!(c.flags, m.flags);
    assert_eq!(c.iflags, m.iflags);
    assert_eq!(c.slot, m.slot);
    assert_eq!(c.bitflags, m.bitflags);
    assert_eq!(c.parameters_count, m.parameters_count);
    let p = clone_parameters(&m.parameters);
    assert_eq!(p.len(), 2);
    assert_eq!(c.parameters.len(), 2);
    for k in 0..2 {
        assert_eq!(p[k].name, m.parameters[k].name);
        assert_eq!(c.parameters[k].token, m.parameters[k].token);
        assert_eq!(c.parameters[k].parameter_type, m.parameters[k].parameter_type);
    }
    let q = m.parameters[0].clone();
    assert_eq!(q.name, Some("delta".to_string()));
}

#[test]
fn can_invoke_needs_code_and_invoker() {
    let mut m = sample();
    assert!(m.can_invoke());
    m.method_ptr = 0;
    assert!(!m.can_invoke());
    m.method_ptr = 1;
    m.invoker_method = 0;
    assert!(!m.can_invoke());
}

#[test]
fn invocation_result_of_nothing_is_a_failure() {
    assert!(matches!(invocation_result(None), Err(Il2CppError::FailedMethodInvocation)));
    let value = Il2CppReflectionType { address: 4, ty: Il2CppType { data: 1, bits: 2 } };
    assert_eq!(invocation_result(Some(value)).unwrap(), value);
}
