//! The serialized-command path: a command is built in the form the store's
//! protocol library holds it, and a simple reply is turned into text.

use vstd::prelude::*;
use vstd::string::StringSliceAdditionalSpecFns;
use vstd::utf8::{decode_utf8, encode_utf8, valid_utf8};
use glide_core::request_type::RequestType;
use redis::Cmd;
use crate::command::{CommandArgs, buffer_bytes};
use crate::error::{ArgumentFault, BridgeError, BridgeErrorView};

verus! {

/// The protocol library's command: an ordered list of arguments, of which
/// the first words name the store operation.
#[verifier::external_type_specification]
#[verifier::external_body]
pub struct ExCmd(redis::Cmd);

/// The codes of the store operations, as the core client library
/// enumerates them. A value is carried through, never looked into.
#[verifier::external_type_specification]
#[verifier::external_body]
pub struct ExRequestType(glide_core::request_type::RequestType);

/// The arguments that a command holds, in the order in which
/// `Cmd::args_iter` yields them, each as the bytes it yields for it.
pub uninterp spec fn cmd_args(cmd: Cmd) -> Seq<Seq<u8>>;

/// The words of the store operation that a request type names, as
/// `RequestType::get_command` gives them, each as its bytes; none where
/// the request type names no operation.
pub uninterp spec fn request_words(request_type: RequestType) -> Option<Seq<Seq<u8>>>;

/// What `String::from_utf8_lossy` makes of a byte string: its text, with
/// the replacement character in place of every part that is not UTF-8.
pub uninterp spec fn utf8_lossy(bytes: Seq<u8>) -> Seq<char>;

/// `redis::cmd`: a new command whose only argument is the bytes of `name`.
#[verifier::external_body]
fn new_command(name: &str) -> (cmd: Cmd)
    ensures
        cmd_args(cmd) == seq![encode_utf8(name@)],
{
    redis::cmd(name)
}

/// `RequestType::get_command`: a command that holds the words of the
/// store operation and nothing else, or nothing where the request type
/// names no operation. The answer depends on the request type alone;
/// which words an operation has is not said here.
#[verifier::external_body]
fn command_for(request_type: RequestType) -> (base: Option<Cmd>)
    ensures
        match base {
            Some(command) => request_words(request_type) == Some(cmd_args(command)),
            None => request_words(request_type) is None,
        },
{
    request_type.get_command()
}

/// `Cmd::arg` on a byte slice: the command gains one argument at its end,
/// which holds exactly the bytes of the slice; the arguments it already
/// had stay as they were.
#[verifier::external_body]
fn append_arg(cmd: &mut Cmd, arg: &[u8])
    ensures
        cmd_args(*final(cmd)) == cmd_args(*old(cmd)).push(arg@),
{
    cmd.arg(arg);
}

/// `String::from_utf8_lossy`, as an owned string. Bytes that are valid
/// UTF-8 give the text they encode, unchanged.
#[verifier::external_body]
fn string_from_utf8_lossy(bytes: &[u8]) -> (text: String)
    ensures
        text@ == utf8_lossy(bytes@),
        valid_utf8(bytes@) ==> text@ == decode_utf8(bytes@),
{
    String::from_utf8_lossy(bytes).into_owned()
}

/// The arguments that a request carries, each as the bytes it is sent as;
/// none where the request carries no arguments at all.
pub open spec fn carried(args: Option<CommandArgs>) -> Option<Seq<Seq<u8>>> {
    match args {
        Some(list) => Some(list.bytes()),
        None => None,
    }
}

/// The arguments of the command of a request, from the words of its store
/// operation and the arguments it carries: the words, then the arguments
/// in order. A request whose type names no operation is turned away, and
/// so is one that carries no arguments at all; where both are amiss, the
/// request type is what is reported.
pub open spec fn redis_command(words: Option<Seq<Seq<u8>>>, args: Option<Seq<Seq<u8>>>) -> Result<
    Seq<Seq<u8>>,
    BridgeErrorView,
> {
    match words {
        None => Err(BridgeErrorView::Argument(ArgumentFault::UnknownRequestType)),
        Some(words) => match args {
            None => Err(BridgeErrorView::Argument(ArgumentFault::MissingArguments)),
            Some(args) => Ok(words + args),
        },
    }
}

/// The mathematical content of the outcome of building a command.
pub open spec fn command_view(outcome: Result<Cmd, BridgeError>) -> Result<
    Seq<Seq<u8>>,
    BridgeErrorView,
> {
    match outcome {
        Ok(cmd) => Ok(cmd_args(cmd)),
        Err(e) => Err(e@),
    }
}

/// The command of a request: the words of the store operation that the
/// request type names, followed by the arguments in order.
pub fn get_redis_command(request_type: RequestType, args: Option<CommandArgs>) -> (r: Result<
    Cmd,
    BridgeError,
>)
    ensures
        command_view(r) == redis_command(request_words(request_type), carried(args)),
{
    complete_command(command_for(request_type), args)
}

/// What is made of the words looked up for a request and the arguments it
/// carries.
pub fn complete_command(base: Option<Cmd>, args: Option<CommandArgs>) -> (r: Result<
    Cmd,
    BridgeError,
>)
    ensures
        command_view(r) == redis_command(
            match base {
                Some(command) => Some(cmd_args(command)),
                None => None,
            },
            carried(args),
        ),
{
    match base {
        None => Err(BridgeError::Argument(ArgumentFault::UnknownRequestType)),
        Some(command) => match args {
            None => Err(BridgeError::Argument(ArgumentFault::MissingArguments)),
            Some(list) => Ok(with_arguments(command, list)),
        },
    }
}

/// The form in which a request carries its arguments makes no difference:
/// strings and prebuilt buffers that hold the same bytes give the same
/// command, or the same failure.
pub proof fn law_both_forms_give_the_same_command(
    request_type: RequestType,
    strings: CommandArgs,
    buffers: CommandArgs,
)
    requires
        strings is Strings,
        buffers is Buffers,
        strings.bytes() == buffers.bytes(),
    ensures
        redis_command(request_words(request_type), carried(Some(strings))) == redis_command(
            request_words(request_type),
            carried(Some(buffers)),
        ),
{
}

/// Completes a command: `command` holds the words of the store operation,
/// and every argument is appended to it in order, each as one argument of
/// its own. The arguments are used up.
pub fn with_arguments(command: Cmd, args: CommandArgs) -> (r: Cmd)
    ensures
        cmd_args(r) == cmd_args(command) + args.bytes(),
{
    let mut cmd = command;
    let buffers = args.into_buffers();
    let mut i: usize = 0;
    while i < buffers.len()
        invariant
            i <= buffers@.len(),
            cmd_args(cmd) == cmd_args(command) + buffer_bytes(buffers@).take(i as int),
        decreases buffers@.len() - i,
    {
        append_arg(&mut cmd, buffers[i].as_slice());
        assert(buffer_bytes(buffers@).take(i + 1) =~= buffer_bytes(buffers@).take(i as int).push(
            buffers@[i as int]@,
        ));
        i += 1;
    }
    assert(buffer_bytes(buffers@).take(i as int) =~= buffer_bytes(buffers@));
    cmd
}

/// The command that reads the value of `key`: `GET` and the key.
pub fn get_v2_command(key: &str) -> (r: Cmd)
    ensures
        cmd_args(r) == seq![encode_utf8("GET"@), encode_utf8(key@)],
{
    let mut cmd = new_command("GET");
    append_arg(&mut cmd, key.as_bytes());
    assert(cmd_args(cmd) =~= seq![encode_utf8("GET"@), encode_utf8(key@)]);
    cmd
}

/// What is read of a reply of the store.
#[derive(Clone, Debug, PartialEq, Eq)]
pub enum Reply {
    /// A string of bytes.
    BulkString(Vec<u8>),
    /// The status reply of success.
    Okay,
    /// Any other reply.
    Other,
}

/// The text of a reply: a byte string as text, read leniently, and the
/// status reply of success as `OK`. No other reply has a text.
pub open spec fn reply_text(reply: Reply) -> Seq<char>
    recommends
        reply !is Other,
{
    match reply {
        Reply::BulkString(bytes) => utf8_lossy(bytes@),
        _ => "OK"@,
    }
}

/// Turns a reply into text.
pub fn convert(reply: Reply) -> (text: String)
    requires
        reply !is Other,
    ensures
        text@ == reply_text(reply),
        reply matches Reply::BulkString(payload) ==> (valid_utf8(payload@) ==> text@
            == decode_utf8(payload@)),
{
    match reply {
        Reply::BulkString(bytes) => string_from_utf8_lossy(bytes.as_slice()),
        _ => "OK".to_owned(),
    }
}

} // verus!
