use valkey_glide::command::CommandArgs;
use valkey_glide::error::{ArgumentFault, BridgeError, ErrorClass};
use glide_core::request_type::RequestType;
use valkey_glide::serialized::{
    complete_command, convert, get_redis_command, get_v2_command, with_arguments, Reply,
};

fn args_of(cmd: &redis::Cmd) -> Vec<Vec<u8>> {
    cmd.args_iter()
        .map(|arg| match arg {
            redis::Arg::Simple(bytes) => bytes.to_vec(),
            redis::Arg::Cursor => panic!("no cursor argument is expected"),
        })
        .collect()
}

fn strings(args: &[&str]) -> CommandArgs {
    CommandArgs::Strings(args.iter().map(|s| s.to_string()).collect())
}

#[test]
fn arguments_are_appended_in_order() {
    let cmd = with_arguments(redis::cmd("SET"), strings(&["key", "value"]));
    assert_eq!(args_of(&cmd), vec![b"SET".to_vec(), b"key".to_vec(), b"value".to_vec()]);
    assert_eq!(
        cmd.get_packed_command(),
        b"*3\r\n$3\r\nSET\r\n$3\r\nkey\r\n$5\r\nvalue\r\n".to_vec()
    );
}

#[test]
fn command_without_arguments_stays_as_it_was() {
    let cmd = with_arguments(redis::cmd("PING"), strings(&[]));
    assert_eq!(args_of(&cmd), vec![b"PING".to_vec()]);
    assert_eq!(cmd.get_packed_command(), b"*1\r\n$4\r\nPING\r\n".to_vec());
}

#[test]
fn arguments_follow_every_word_of_the_command() {
    let mut base = redis::cmd("CONFIG");
    base.arg("GET");
    let cmd = with_arguments(base, strings(&["maxmemory"]));
    assert_eq!(args_of(&cmd), vec![b"CONFIG".to_vec(), b"GET".to_vec(), b"maxmemory".to_vec()]);
}

#[test]
fn bare_command_takes_all_its_words_from_the_arguments() {
    let cmd = with_arguments(redis::Cmd::new(), strings(&["ECHO", "hi"]));
    assert_eq!(cmd.get_packed_command(), b"*2\r\n$4\r\nECHO\r\n$2\r\nhi\r\n".to_vec());
}

#[test]
fn prebuilt_buffers_are_appended_byte_for_byte() {
    let buffers = vec![vec![b'a', 0, b'b'], Vec::new(), vec![0xff, 0xfe]];
    let cmd = with_arguments(redis::cmd("SET"), CommandArgs::Buffers(buffers));
    assert_eq!(
        args_of(&cmd),
        vec![b"SET".to_vec(), vec![b'a', 0, b'b'], Vec::new(), vec![0xff, 0xfe]]
    );
    assert_eq!(
        cmd.get_packed_command(),
        b"*4\r\n$3\r\nSET\r\n$3\r\na\0b\r\n$0\r\n\r\n$2\r\n\xff\xfe\r\n".to_vec()
    );
}

#[test]
fn large_argument_is_one_argument_with_all_its_bytes() {
    let large: Vec<u8> = (0..20_000u32).map(|i| (i % 251) as u8).collect();
    let cmd = with_arguments(
        redis::cmd("SET"),
        CommandArgs::Buffers(vec![b"k".to_vec(), large.clone(), b"tail".to_vec()]),
    );
    assert_eq!(args_of(&cmd), vec![b"SET".to_vec(), b"k".to_vec(), large, b"tail".to_vec()]);
}

#[test]
fn string_argument_is_sent_as_its_utf8_bytes() {
    let cmd = with_arguments(redis::cmd("GET"), strings(&["€"]));
    assert_eq!(args_of(&cmd), vec![b"GET".to_vec(), vec![0xe2, 0x82, 0xac]]);
}

#[test]
fn get_v2_command_is_get_and_the_key() {
    let cmd = get_v2_command("user:1");
    assert_eq!(args_of(&cmd), vec![b"GET".to_vec(), b"user:1".to_vec()]);
    assert_eq!(cmd.get_packed_command(), b"*2\r\n$3\r\nGET\r\n$6\r\nuser:1\r\n".to_vec());
    assert_eq!(args_of(&get_v2_command("")), vec![b"GET".to_vec(), Vec::new()]);
}

#[test]
fn bulk_string_converts_to_its_text() {
    assert_eq!(convert(Reply::BulkString(b"hello".to_vec())), "hello");
    assert_eq!(convert(Reply::BulkString("grüße €".as_bytes().to_vec())), "grüße €");
    assert_eq!(convert(Reply::BulkString(Vec::new())), "");
    assert_eq!(convert(Reply::BulkString(vec![b'a', 0, b'b'])), "a\0b");
}

#[test]
fn bulk_string_that_is_not_utf8_converts_leniently() {
    assert_eq!(convert(Reply::BulkString(vec![b'a', 0xff, b'b'])), "a\u{fffd}b");
    assert_eq!(convert(Reply::BulkString(vec![0xe2, 0x82])), "\u{fffd}");
}

#[test]
fn okay_converts_to_ok() {
    assert_eq!(convert(Reply::Okay), "OK");
}

#[test]
fn request_type_gives_the_words_and_the_arguments_follow() {
    let cmd = get_redis_command(RequestType::Set, Some(strings(&["key", "value"]))).unwrap();
    assert_eq!(
        cmd.get_packed_command(),
        b"*3\r\n$3\r\nSET\r\n$3\r\nkey\r\n$5\r\nvalue\r\n".to_vec()
    );
    let cmd = get_redis_command(RequestType::ConfigGet, Some(strings(&["maxmemory"]))).unwrap();
    assert_eq!(args_of(&cmd), vec![b"CONFIG".to_vec(), b"GET".to_vec(), b"maxmemory".to_vec()]);
}

#[test]
fn custom_command_takes_all_its_words_from_the_arguments() {
    let cmd = get_redis_command(RequestType::CustomCommand, Some(strings(&["ECHO", "hi"]))).unwrap();
    assert_eq!(args_of(&cmd), vec![b"ECHO".to_vec(), b"hi".to_vec()]);
}

#[test]
fn command_with_an_empty_argument_list_is_the_words_alone() {
    let cmd = get_redis_command(RequestType::Ping, Some(strings(&[]))).unwrap();
    assert_eq!(args_of(&cmd), vec![b"PING".to_vec()]);
}

#[test]
fn invalid_request_type_is_an_argument_error() {
    let failure = get_redis_command(RequestType::InvalidRequest, Some(strings(&["k"]))).unwrap_err();
    assert_eq!(failure, BridgeError::Argument(ArgumentFault::UnknownRequestType));
    assert_eq!(failure.class(), ErrorClass::Argument);
}

#[test]
fn request_without_arguments_is_an_argument_error() {
    let failure = get_redis_command(RequestType::Get, None).unwrap_err();
    assert_eq!(failure, BridgeError::Argument(ArgumentFault::MissingArguments));
    assert_eq!(failure.class(), ErrorClass::Argument);
}

#[test]
fn invalid_request_type_is_reported_before_missing_arguments() {
    let failure = get_redis_command(RequestType::InvalidRequest, None).unwrap_err();
    assert_eq!(failure, BridgeError::Argument(ArgumentFault::UnknownRequestType));
}

#[test]
fn both_forms_of_the_same_arguments_give_the_same_command() {
    let from_strings = get_redis_command(RequestType::Set, Some(strings(&["k", "v€"]))).unwrap();
    let from_buffers = get_redis_command(
        RequestType::Set,
        Some(CommandArgs::Buffers(vec![b"k".to_vec(), "v€".as_bytes().to_vec()])),
    )
    .unwrap();
    assert_eq!(args_of(&from_strings), args_of(&from_buffers));
    assert_eq!(from_strings.get_packed_command(), from_buffers.get_packed_command());
}

#[test]
fn lookup_outcome_and_arguments_decide_the_command() {
    let failure = complete_command(None, Some(strings(&["k"]))).unwrap_err();
    assert_eq!(failure, BridgeError::Argument(ArgumentFault::UnknownRequestType));
    let failure = complete_command(Some(redis::cmd("DEL")), None).unwrap_err();
    assert_eq!(failure, BridgeError::Argument(ArgumentFault::MissingArguments));
    let failure = complete_command(None, None).unwrap_err();
    assert_eq!(failure, BridgeError::Argument(ArgumentFault::UnknownRequestType));
    let cmd = complete_command(Some(redis::cmd("DEL")), Some(strings(&["a", "b"]))).unwrap();
    assert_eq!(args_of(&cmd), vec![b"DEL".to_vec(), b"a".to_vec(), b"b".to_vec()]);
}
