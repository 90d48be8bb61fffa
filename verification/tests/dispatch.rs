use proxy_dispatch::error::Error;
use proxy_dispatch::name::{Multiname, Namespace, QName};
use proxy_dispatch::object::{
    complete_boolean_delegate, complete_get_next_enumerant, complete_set_property,
    proxy_allocator, ClassDef, DelegateCall, DelegateMethod, Dispatch, ProxyArena, ProxyObject,
};
use proxy_dispatch::value::Value;

fn multiname(local: Option<&str>, namespaces: Vec<Namespace>) -> Multiname {
    Multiname { local_name: local.map(|s| s.to_string()), namespaces }
}

fn new_proxy(arena: &mut ProxyArena, sealed: bool) -> ProxyObject {
    proxy_allocator(arena, ClassDef { sealed }).unwrap()
}

fn qname(ns: Namespace, local: &str) -> QName {
    QName { ns, local_name: local.to_string() }
}

#[test]
fn get_uses_first_qualifying_namespace() {
    let mut arena = ProxyArena::new();
    let obj = new_proxy(&mut arena, false);
    let mn = multiname(
        Some("foo"),
        vec![Namespace::Named("u1".to_string()), Namespace::Public, Namespace::Any],
    );
    let step = obj.get_property_local(&arena, &mn);
    assert_eq!(
        step,
        Dispatch::Delegate(DelegateCall {
            method: DelegateMethod::GetProperty,
            args: vec![Value::QName(qname(Namespace::Named("u1".to_string()), "foo"))],
        })
    );
}

#[test]
fn set_uses_first_qualifying_namespace() {
    let mut arena = ProxyArena::new();
    let obj = new_proxy(&mut arena, true);
    let mn = multiname(Some("bar"), vec![Namespace::Public, Namespace::Any]);
    let step = obj.set_property_local(&arena, &mn, Value::Bool(true));
    assert_eq!(
        step,
        Dispatch::Delegate(DelegateCall {
            method: DelegateMethod::SetProperty,
            args: vec![Value::QName(qname(Namespace::Public, "bar")), Value::Bool(true)],
        })
    );
}

#[test]
fn call_uses_first_qualifying_namespace_and_keeps_argument_order() {
    let mut arena = ProxyArena::new();
    let obj = new_proxy(&mut arena, false);
    let mn = multiname(Some("run"), vec![Namespace::Any, Namespace::Public]);
    let arguments = vec![Value::UInt(7), Value::Null, Value::Str("x".to_string())];
    let step = obj.call_property_local(&mn, &arguments);
    assert_eq!(
        step,
        Dispatch::Delegate(DelegateCall {
            method: DelegateMethod::CallProperty,
            args: vec![
                Value::QName(qname(Namespace::Any, "run")),
                Value::UInt(7),
                Value::Null,
                Value::Str("x".to_string()),
            ],
        })
    );
}

#[test]
fn delete_uses_first_qualifying_namespace() {
    let mut arena = ProxyArena::new();
    let obj = new_proxy(&mut arena, true);
    let mn = multiname(Some("gone"), vec![Namespace::Named("ns".to_string())]);
    let step = obj.delete_property_local(&arena, &mn);
    assert_eq!(
        step,
        Dispatch::Delegate(DelegateCall {
            method: DelegateMethod::DeleteProperty,
            args: vec![Value::QName(qname(Namespace::Named("ns".to_string()), "gone"))],
        })
    );
}

#[test]
fn get_sealed_without_qualifying_namespace_fails_undefined_property() {
    let mut arena = ProxyArena::new();
    let obj = new_proxy(&mut arena, true);
    let mn = multiname(Some("foo"), vec![]);
    let step = obj.get_property_local(&arena, &mn);
    assert_eq!(
        step,
        Dispatch::Complete(Err(Error::UndefinedProperty(Some("foo".to_string()))))
    );
}

#[test]
fn get_dynamic_without_qualifying_namespace_yields_undefined() {
    let mut arena = ProxyArena::new();
    let obj = new_proxy(&mut arena, false);
    let mn = multiname(Some("foo"), vec![]);
    let step = obj.get_property_local(&arena, &mn);
    assert_eq!(step, Dispatch::Complete(Ok(Value::Undefined)));

    let no_local = multiname(None, vec![Namespace::Public]);
    let step = obj.get_property_local(&arena, &no_local);
    assert_eq!(step, Dispatch::Complete(Ok(Value::Undefined)));
}

#[test]
fn set_dynamic_with_local_name_silently_drops_the_write() {
    let mut arena = ProxyArena::new();
    let obj = new_proxy(&mut arena, false);
    let before = arena.objects.clone();
    let mn = multiname(Some("foo"), vec![]);
    let step = obj.set_property_local(&arena, &mn, Value::UInt(1));
    assert_eq!(step, Dispatch::Complete(Ok(())));
    assert_eq!(arena.objects, before);
}

#[test]
fn set_without_local_name_fails_invalid_set_target() {
    let mut arena = ProxyArena::new();
    let obj = new_proxy(&mut arena, false);
    let step = obj.set_property_local(&arena, &multiname(None, vec![]), Value::Null);
    assert_eq!(step, Dispatch::Complete(Err(Error::InvalidSetTarget)));
}

#[test]
fn set_sealed_without_qualifying_namespace_fails_undefined_property() {
    let mut arena = ProxyArena::new();
    let obj = new_proxy(&mut arena, true);
    let step = obj.set_property_local(&arena, &multiname(Some("foo"), vec![]), Value::Null);
    assert_eq!(
        step,
        Dispatch::Complete(Err(Error::UndefinedProperty(Some("foo".to_string()))))
    );
    let step = obj.set_property_local(&arena, &multiname(None, vec![]), Value::Null);
    assert_eq!(step, Dispatch::Complete(Err(Error::UndefinedProperty(None))));
}

#[test]
fn call_without_qualifying_namespace_always_fails() {
    let mut arena = ProxyArena::new();
    let dynamic = new_proxy(&mut arena, false);
    let sealed = new_proxy(&mut arena, true);
    for obj in [dynamic, sealed] {
        let step = obj.call_property_local(&multiname(Some("foo"), vec![]), &vec![]);
        assert_eq!(
            step,
            Dispatch::Complete(Err(Error::UndefinedProperty(Some("foo".to_string()))))
        );
        let step = obj.call_property_local(&multiname(None, vec![Namespace::Public]), &vec![]);
        assert_eq!(step, Dispatch::Complete(Err(Error::UndefinedProperty(None))));
    }
}

#[test]
fn delete_without_qualifying_namespace_never_fails() {
    let mut arena = ProxyArena::new();
    let dynamic = new_proxy(&mut arena, false);
    let sealed = new_proxy(&mut arena, true);
    let mn = multiname(Some("foo"), vec![]);
    assert_eq!(dynamic.delete_property_local(&arena, &mn), Dispatch::Complete(Ok(true)));
    assert_eq!(sealed.delete_property_local(&arena, &mn), Dispatch::Complete(Ok(false)));
}

#[test]
fn has_property_always_delegates_to_has_property() {
    let mut arena = ProxyArena::new();
    let dynamic = new_proxy(&mut arena, false);
    let sealed = new_proxy(&mut arena, true);
    let expected = DelegateCall {
        method: DelegateMethod::HasProperty,
        args: vec![Value::Str("foo".to_string())],
    };
    for obj in [dynamic, sealed] {
        let empty = multiname(Some("foo"), vec![]);
        assert_eq!(obj.has_property_via_in(&empty), expected);
        let many = multiname(
            Some("foo"),
            vec![Namespace::Named("a".to_string()), Namespace::Public, Namespace::Any],
        );
        assert_eq!(obj.has_property_via_in(&many), expected);
    }
}

#[test]
fn enumeration_round_trips_the_delegate_index() {
    let mut arena = ProxyArena::new();
    let obj = new_proxy(&mut arena, false);
    let call = obj.get_next_enumerant(0);
    assert_eq!(
        call,
        DelegateCall { method: DelegateMethod::NextNameIndex, args: vec![Value::UInt(0)] }
    );
    // The proxy's `nextNameIndex` delegate answers 3.
    let outcome = complete_get_next_enumerant(Ok(Value::UInt(3)));
    assert_eq!(outcome, Ok(Some(3)));
}

#[test]
fn enumerant_name_and_value_return_the_raw_delegate_result() {
    let mut arena = ProxyArena::new();
    let obj = new_proxy(&mut arena, false);
    assert_eq!(
        obj.get_enumerant_name(3),
        DelegateCall { method: DelegateMethod::NextName, args: vec![Value::UInt(3)] }
    );
    assert_eq!(
        obj.get_enumerant_value(3),
        DelegateCall { method: DelegateMethod::NextValue, args: vec![Value::UInt(3)] }
    );
    // No completion step exists for these operations: whatever the
    // delegate returns is the operation's result, unmodified.
    let delegate_result: Result<Value, Error> = Ok(Value::Str("prop".to_string()));
    assert_eq!(delegate_result, Ok(Value::Str("prop".to_string())));
}

#[test]
fn end_to_end_dynamic_get_returns_delegate_hit() {
    let mut arena = ProxyArena::new();
    let obj = new_proxy(&mut arena, false);
    let mn = multiname(Some("foo"), vec![Namespace::Public]);
    // A `getProperty` delegate that answers "hit" for any QName.
    let delegate = |call: DelegateCall| -> Result<Value, Error> {
        assert_eq!(call.method, DelegateMethod::GetProperty);
        match &call.args[0] {
            Value::QName(_) => Ok(Value::Str("hit".to_string())),
            other => panic!("unexpected first argument {other:?}"),
        }
    };
    let outcome = match obj.get_property_local(&arena, &mn) {
        Dispatch::Delegate(call) => {
            assert_eq!(
                call.args,
                vec![Value::QName(qname(Namespace::Public, "foo"))]
            );
            delegate(call)
        }
        Dispatch::Complete(r) => r,
    };
    assert_eq!(outcome, Ok(Value::Str("hit".to_string())));
}

#[test]
fn end_to_end_sealed_get_mentions_the_local_name() {
    let mut arena = ProxyArena::new();
    let obj = new_proxy(&mut arena, true);
    let mn = multiname(Some("foo"), vec![]);
    let outcome = match obj.get_property_local(&arena, &mn) {
        Dispatch::Delegate(_) => panic!("no namespace set should reach a delegate"),
        Dispatch::Complete(r) => r,
    };
    match outcome {
        Err(Error::UndefinedProperty(Some(name))) => assert_eq!(name, "foo"),
        other => panic!("expected UndefinedProperty mentioning foo, got {other:?}"),
    }
}

#[test]
fn set_completion_discards_the_delegate_value() {
    assert_eq!(complete_set_property(Ok(Value::Str("ignored".to_string()))), Ok(()));
    assert_eq!(complete_set_property(Ok(Value::Undefined)), Ok(()));
}

#[test]
fn completions_propagate_delegate_failures_unchanged() {
    let boom = Error::DelegateFailure("boom".to_string());
    assert_eq!(complete_set_property(Err(boom.clone())), Err(boom.clone()));
    assert_eq!(complete_boolean_delegate(Err(boom.clone())), Err(boom.clone()));
    assert_eq!(complete_get_next_enumerant(Err(boom.clone())), Err(boom));
}

#[test]
fn boolean_completion_coerces_the_delegate_result() {
    assert_eq!(complete_boolean_delegate(Ok(Value::Bool(true))), Ok(true));
    assert_eq!(complete_boolean_delegate(Ok(Value::Bool(false))), Ok(false));
    assert_eq!(complete_boolean_delegate(Ok(Value::UInt(0))), Ok(false));
    assert_eq!(complete_boolean_delegate(Ok(Value::UInt(2))), Ok(true));
    assert_eq!(complete_boolean_delegate(Ok(Value::Str(String::new()))), Ok(false));
    assert_eq!(complete_boolean_delegate(Ok(Value::Str("x".to_string()))), Ok(true));
    assert_eq!(complete_boolean_delegate(Ok(Value::Undefined)), Ok(false));
    assert_eq!(complete_boolean_delegate(Ok(Value::Null)), Ok(false));
    assert_eq!(complete_boolean_delegate(Ok(Value::Object(5))), Ok(true));
}

#[test]
fn enumerant_completion_rejects_non_coercible_results() {
    assert_eq!(
        complete_get_next_enumerant(Ok(Value::Str("three".to_string()))),
        Err(Error::NonCoercible)
    );
    assert_eq!(complete_get_next_enumerant(Ok(Value::Bool(true))), Ok(Some(1)));
    assert_eq!(complete_get_next_enumerant(Ok(Value::Undefined)), Ok(Some(0)));
    assert_eq!(complete_get_next_enumerant(Ok(Value::Null)), Ok(Some(0)));
}
