use dispatch::registry::{ActionError, Callable, Signature, Struct};
use std::sync::Arc;

fn signature(name: &str) -> Signature {
    Signature { Name: name.to_string(), Shape: "(path: string)".to_string() }
}

fn answering(answer: i64) -> Callable {
    Callable {
        Call: Arc::new(move |argument: Vec<serde_json::Value>| {
            Box::pin(async move {
                if argument.is_empty() {
                    Err(ActionError { Message: "no argument".to_string() })
                } else {
                    Ok(serde_json::Value::from(answer))
                }
            })
        }),
    }
}

#[test]
fn add_without_signature_fails_and_binds_nothing() {
    let mut registry = Struct::New();
    match registry.Add("read", answering(1)) {
        Err(message) => assert_eq!(message, "No signature found for function: read"),
        Ok(_) => panic!("bound without a signature"),
    }
    assert!(registry.Remove("read").is_none());
}

#[test]
fn add_after_sign_is_found_by_lookup() {
    let mut registry = Struct::New();
    registry.Sign(signature("read"));
    assert!(registry.Add("read", answering(7)).is_ok());
    let found = registry.Remove("read").expect("bound operation");
    let value = futures::executor::block_on((found.Call)(vec![serde_json::Value::from("/tmp/x")]));
    assert_eq!(value.unwrap(), serde_json::Value::from(7));
    // A lookup leaves the entry in place.
    assert!(registry.Remove("read").is_some());
}

#[test]
fn sign_for_another_name_does_not_allow_binding() {
    let mut registry = Struct::New();
    registry.Sign(signature("write")).Sign(signature("list"));
    assert!(registry.Add("read", answering(1)).is_err());
    assert!(registry.Add("list", answering(1)).is_ok());
    assert!(registry.Remove("read").is_none());
    assert!(registry.Remove("write").is_none());
}

#[test]
fn binding_again_replaces_the_operation() {
    let mut registry = Struct::New();
    registry.Sign(signature("read"));
    assert!(registry.Add("read", answering(1)).is_ok());
    assert!(registry.Add("read", answering(2)).is_ok());
    let found = registry.Remove("read").unwrap();
    let value = futures::executor::block_on((found.Call)(vec![serde_json::Value::Null]));
    assert_eq!(value.unwrap(), serde_json::Value::from(2));
}

#[test]
fn bound_operation_reports_its_own_error() {
    let mut registry = Struct::New();
    registry.Sign(signature("read"));
    assert!(registry.Add("read", answering(3)).is_ok());
    let found = registry.Remove("read").unwrap();
    let outcome = futures::executor::block_on((found.Call)(Vec::new()));
    assert_eq!(outcome.unwrap_err().Message, "no argument");
}
