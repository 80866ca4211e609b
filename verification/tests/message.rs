use redactor::{Command, Pipe};

#[test]
fn wrapped_command_holds_what_the_original_held() {
    let mut original = redis::cmd("SET");
    original.arg("key:name").arg("redactor");
    let wrapped = Command::wrap(&mut original);
    assert_eq!(wrapped.command().get_packed_command(), original.get_packed_command());
    assert_eq!(
        wrapped.command().get_packed_command(),
        b"*3\r\n$3\r\nSET\r\n$8\r\nkey:name\r\n$8\r\nredactor\r\n".to_vec()
    );
}

#[test]
fn wrapping_takes_the_end_of_a_builder_chain() {
    let wrapped = Command::wrap(redis::cmd("BITCOUNT").arg("key:name"));
    assert_eq!(
        wrapped.command().get_packed_command(),
        b"*2\r\n$8\r\nBITCOUNT\r\n$8\r\nkey:name\r\n".to_vec()
    );
}

#[test]
fn later_changes_to_the_original_do_not_reach_the_wrapped_command() {
    let mut original = redis::cmd("GET");
    original.arg("a");
    let wrapped = Command::wrap(&mut original);
    original.arg("b");
    assert_eq!(wrapped.command().get_packed_command(), b"*2\r\n$3\r\nGET\r\n$1\r\na\r\n".to_vec());
    assert_eq!(
        original.get_packed_command(),
        b"*3\r\n$3\r\nGET\r\n$1\r\na\r\n$1\r\nb\r\n".to_vec()
    );
}

#[test]
fn wrapped_pipeline_holds_the_commands_in_order() {
    let mut original = redis::pipe();
    original.cmd("SET").arg("k").arg(1).cmd("GET").arg("k");
    let wrapped = Pipe::line(&mut original);
    assert_eq!(wrapped.pipeline().get_packed_pipeline(), original.get_packed_pipeline());
    assert_eq!(wrapped.pipeline().cmd_iter().count(), 2);
    assert_eq!(
        wrapped.pipeline().get_packed_pipeline(),
        b"*3\r\n$3\r\nSET\r\n$1\r\nk\r\n$1\r\n1\r\n*2\r\n$3\r\nGET\r\n$1\r\nk\r\n".to_vec()
    );
}

#[test]
fn later_changes_to_the_original_do_not_reach_the_wrapped_pipeline() {
    let mut original = redis::pipe();
    original.cmd("PING");
    let wrapped = Pipe::line(&mut original);
    original.cmd("PING").atomic();
    assert_eq!(wrapped.pipeline().cmd_iter().count(), 1);
    assert_eq!(wrapped.pipeline().get_packed_pipeline(), b"*1\r\n$4\r\nPING\r\n".to_vec());
}

#[test]
fn empty_pipeline_can_be_wrapped() {
    let wrapped = Pipe::line(&mut redis::pipe());
    assert_eq!(wrapped.pipeline().cmd_iter().count(), 0);
    assert!(wrapped.pipeline().get_packed_pipeline().is_empty());
}
