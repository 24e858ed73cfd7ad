use fsevent_watch::bridge::{HandlerCall, HandlerExecutor, HANDLER_METHOD, HANDLER_SIGNATURE};
use fsevent_watch::kind::Kind;

#[test]
fn method_name_and_signature() {
    assert_eq!(HANDLER_METHOD, "handle");
    assert_eq!(HANDLER_SIGNATURE, "(ILjava/lang/String;Ljava/lang/String;)V");
}

#[test]
fn call_carries_ordinal_root_and_path() {
    let executor = HandlerExecutor::new(String::from("/watched/root"));
    assert_eq!(
        executor.execute(Kind::MODIFY, &String::from("/watched/root/a.txt")),
        HandlerCall {
            ordinal: 3,
            root: String::from("/watched/root"),
            path: String::from("/watched/root/a.txt"),
        }
    );
}

#[test]
fn each_kind_is_marshalled_as_its_ordinal() {
    let executor = HandlerExecutor::new(String::from("/r"));
    let path = String::from("/r/x");
    assert_eq!(executor.execute(Kind::OVERFLOW, &path).ordinal, 0);
    assert_eq!(executor.execute(Kind::CREATE, &path).ordinal, 1);
    assert_eq!(executor.execute(Kind::DELETE, &path).ordinal, 2);
    assert_eq!(executor.execute(Kind::MODIFY, &path).ordinal, 3);
}

#[test]
fn root_stays_the_same_over_calls() {
    let executor = HandlerExecutor::new(String::from("/r"));
    let first = executor.execute(Kind::CREATE, &String::from("/r/a"));
    let second = executor.execute(Kind::DELETE, &String::from("/r/b"));
    assert_eq!(first.root, "/r");
    assert_eq!(second.root, "/r");
    assert_eq!(first.path, "/r/a");
    assert_eq!(second.path, "/r/b");
}
