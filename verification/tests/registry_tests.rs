use sendme_module::registry::sendme_module;
use sendme_module::registry::register;
use sendme_module::registry::ModuleDescriptor;
use sendme_module::registry::NativeOp;
use sendme_module::value::CallError;
use sendme_module::value::HostValue;
use sendme_module::value::LoadError;

#[test]
fn register_builds_named_module() {
    let m = register(String::from("sendme_module")).unwrap();
    assert_eq!(m.name, "sendme_module");
    assert_eq!(m.bindings.len(), 1);
    assert_eq!(m.bindings[0].name, "add_two_numbers");
    assert_eq!(m.bindings[0].op, NativeOp::AddTwoNumbers);
}

#[test]
fn duplicate_name_conflicts() {
    let mut m = ModuleDescriptor::new(String::from("m"));
    assert_eq!(m.attach(String::from("f"), NativeOp::AddTwoNumbers), Ok(()));
    assert_eq!(
        m.attach(String::from("f"), NativeOp::AddTwoNumbers),
        Err(LoadError::RegistrationConflict)
    );
    assert_eq!(m.bindings.len(), 1);
    assert_eq!(m.attach(String::from("g"), NativeOp::AddTwoNumbers), Ok(()));
    assert_eq!(m.bindings.len(), 2);
    assert_eq!(m.bindings[0].name, "f");
    assert_eq!(m.bindings[1].name, "g");
}

#[test]
fn scenario_import_twice_agrees() {
    let first = sendme_module();
    let second = sendme_module();
    assert_eq!(first.name, second.name);
    assert_eq!(first.bindings.len(), second.bindings.len());
    assert_eq!(first.bindings[0].name, second.bindings[0].name);
    let samples: [Vec<HostValue>; 4] = [
        vec![HostValue::Int(2), HostValue::Int(3)],
        vec![HostValue::Int(2147483647), HostValue::Int(1)],
        vec![HostValue::Int(4)],
        vec![HostValue::Text(String::from("two")), HostValue::Int(3)],
    ];
    for args in &samples {
        assert_eq!(
            first.bindings[0].invoke(args),
            second.bindings[0].invoke(args)
        );
    }
}

#[test]
fn find_looks_names_up() {
    let m = sendme_module();
    assert_eq!(m.find(&String::from("add_two_numbers")), Some(0));
    assert_eq!(m.find(&String::from("missing")), None);
}

#[test]
fn invoke_through_the_registered_binding() {
    let m = sendme_module();
    let idx = m.find(&String::from("add_two_numbers")).unwrap();
    let args = vec![HostValue::Int(2), HostValue::Int(3)];
    assert_eq!(m.bindings[idx].invoke(&args), Ok(HostValue::Int(5)));
    let none: Vec<HostValue> = vec![];
    assert_eq!(
        m.bindings[idx].invoke(&none),
        Err(CallError::ArityMismatch)
    );
}
