//! Command invocation: marshalling a request for the native dispatch call
//! and reading what it returns.

use vstd::prelude::*;
use vstd::slice::slice_to_vec;
use vstd::string::StringSliceAdditionalSpecFns;
use vstd::utf8::encode_utf8;
use crate::decoder::{decode, decoded, outcome_view};
use crate::error::{ArgumentFault, BridgeError, BridgeErrorView, CommandError, ErrorClass};
use crate::lifecycle::{ClientHandle, Owner, Release};
use crate::response::{CommandResponse, ResponseView};
use crate::value::{Value, ValueView};

verus! {

/// The arguments of a command, in one of the two forms a caller may hold
/// them in. Either way they are moved into the request: the caller gives
/// them up.
#[derive(Clone, Debug, PartialEq, Eq)]
pub enum CommandArgs {
    /// Argument strings; each is sent as its UTF-8 bytes.
    Strings(Vec<String>),
    /// Byte buffers built beforehand; each is sent as it is.
    Buffers(Vec<Vec<u8>>),
}

/// A command to run: the code of the store operation, and its arguments in
/// order.
#[derive(Clone, Debug, PartialEq, Eq)]
pub struct CommandRequest {
    pub request_type: u32,
    pub args: CommandArgs,
}

/// What the native dispatch call receives. The buffers are owned here, so
/// that they stay in place for as long as the call borrows them.
#[derive(Clone, Debug, PartialEq, Eq)]
pub struct CommandCall {
    /// The address of the native client.
    pub client: usize,
    /// The channel identifier; zero in synchronous mode.
    pub channel: usize,
    /// The code of the store operation.
    pub request_type: u32,
    /// The number of arguments.
    pub arg_count: u64,
    /// One owned buffer for each argument, in order.
    pub args: Vec<Vec<u8>>,
    /// The length of each buffer, in the same order.
    pub arg_lens: Vec<u64>,
    /// The routing bytes; none here.
    pub route: Option<Vec<u8>>,
    /// The number of routing bytes; zero here.
    pub route_len: u64,
}

/// The bytes of each of a list of strings, in order.
pub open spec fn string_bytes(strings: Seq<String>) -> Seq<Seq<u8>> {
    Seq::new(strings.len(), |i: int| encode_utf8(strings[i]@))
}

/// The bytes of each of a list of buffers, in order.
pub open spec fn buffer_bytes(buffers: Seq<Vec<u8>>) -> Seq<Seq<u8>> {
    Seq::new(buffers.len(), |i: int| buffers[i]@)
}

/// The length of each of a list of byte strings, in order.
pub open spec fn byte_lengths(bytes: Seq<Seq<u8>>) -> Seq<int> {
    Seq::new(bytes.len(), |i: int| bytes[i].len() as int)
}

/// The numbers of a list of lengths, in order.
pub open spec fn length_values(lengths: Seq<u64>) -> Seq<int> {
    Seq::new(lengths.len(), |i: int| lengths[i] as int)
}

impl CommandArgs {
    /// The bytes that each argument is sent as, in order.
    pub open spec fn bytes(self) -> Seq<Seq<u8>> {
        match self {
            CommandArgs::Strings(strings) => string_bytes(strings@),
            CommandArgs::Buffers(buffers) => buffer_bytes(buffers@),
        }
    }

    /// Turns the arguments into owned buffers, one for each argument, in
    /// order. The arguments are used up.
    pub fn into_buffers(self) -> (buffers: Vec<Vec<u8>>)
        ensures
            buffer_bytes(buffers@) == self.bytes(),
    {
        match self {
            CommandArgs::Buffers(buffers) => buffers,
            CommandArgs::Strings(strings) => {
                let mut buffers: Vec<Vec<u8>> = Vec::with_capacity(strings.len());
                let mut i: usize = 0;
                while i < strings.len()
                    invariant
                        i <= strings@.len(),
                        buffers@.len() == i,
                        forall|j: int| 0 <= j < i ==> (#[trigger] buffers@[j])@ == encode_utf8(strings@[j]@),
                    decreases strings@.len() - i,
                {
                    buffers.push(slice_to_vec(strings[i].as_str().as_bytes()));
                    i += 1;
                }
                assert(buffer_bytes(buffers@) =~= string_bytes(strings@));
                buffers
            },
        }
    }
}

/// The length of each buffer, in order.
pub fn buffer_lengths(buffers: &Vec<Vec<u8>>) -> (lengths: Vec<u64>)
    ensures
        length_values(lengths@) == byte_lengths(buffer_bytes(buffers@)),
{
    let mut lengths: Vec<u64> = Vec::with_capacity(buffers.len());
    let mut i: usize = 0;
    while i < buffers.len()
        invariant
            i <= buffers@.len(),
            lengths@.len() == i,
            forall|j: int| 0 <= j < i ==> (#[trigger] lengths@[j]) as int == buffers@[j]@.len(),
        decreases buffers@.len() - i,
    {
        lengths.push(buffers[i].len() as u64);
        i += 1;
    }
    assert(length_values(lengths@) =~= byte_lengths(buffer_bytes(buffers@)));
    lengths
}

/// First half of `command`: checks that the handle is open and marshals
/// the request. On a closed handle the request is turned away, so that no
/// native call is made through it. Otherwise every argument has been
/// copied into a buffer of its own before the lengths are taken, the
/// channel is zero and there is no route.
pub fn prepare_command(handle: &ClientHandle, request: CommandRequest) -> (r: Result<
    CommandCall,
    BridgeError,
>)
    ensures
        r is Ok <==> handle.spec_is_open(),
        r matches Err(e) ==> e@ == BridgeErrorView::Argument(ArgumentFault::ReleasedHandle),
        r matches Ok(call) ==> {
            &&& call.client == handle.spec_address()
            &&& call.channel == 0
            &&& call.request_type == request.request_type
            &&& call.arg_count == request.args.bytes().len()
            &&& buffer_bytes(call.args@) == request.args.bytes()
            &&& length_values(call.arg_lens@) == byte_lengths(request.args.bytes())
            &&& call.route is None
            &&& call.route_len == 0
        },
{
    if !handle.is_open() {
        return Err(BridgeError::Argument(ArgumentFault::ReleasedHandle));
    }
    let request_type = request.request_type;
    let args = request.args.into_buffers();
    let arg_lens = buffer_lengths(&args);
    Ok(
        CommandCall {
            client: handle.address(),
            channel: 0,
            request_type,
            arg_count: args.len() as u64,
            args,
            arg_lens,
            route: None,
            route_len: 0,
        },
    )
}

/// The result of a native command, copied out of native memory: the
/// response and the error record, each `None` where its pointer was null.
#[derive(Debug, PartialEq, Eq)]
pub struct CommandResult {
    pub response: Option<CommandResponse>,
    pub command_error: Option<CommandError>,
}

/// The mathematical content of a [`CommandResult`].
pub struct CommandResultView {
    pub response: Option<ResponseView>,
    pub command_error: Option<(u32, Option<Seq<u8>>)>,
}

impl View for CommandResult {
    type V = CommandResultView;

    open spec fn view(&self) -> CommandResultView {
        CommandResultView {
            response: match self.response {
                Some(response) => Some(response@),
                None => None,
            },
            command_error: match self.command_error {
                Some(error) => Some(error@),
                None => None,
            },
        }
    }
}

/// The mathematical content of what the native dispatch call returned.
pub open spec fn returned_view(returned: Option<CommandResult>) -> Option<CommandResultView> {
    match returned {
        Some(result) => Some(result@),
        None => None,
    }
}

/// What a command comes to. No result at all is an execution failure
/// without detail. A result with an error record is an execution failure
/// that carries the record's code and message as they are, whatever else
/// the result holds. A result without error and without response is the
/// absent value. Any other result is what its response decodes to.
pub open spec fn concluded(returned: Option<CommandResultView>) -> Result<
    ValueView,
    BridgeErrorView,
> {
    match returned {
        None => Err(BridgeErrorView::Execution(None)),
        Some(result) => match result.command_error {
            Some(error) => Err(BridgeErrorView::Execution(Some(error))),
            None => match result.response {
                None => Ok(ValueView::Absent),
                Some(response) => decoded(response),
            },
        },
    }
}

/// Second half of `command`: reads what the native dispatch call returned.
/// `owner` owns the result allocation; it is released here on every path,
/// after the result has been read and decoded, and the release call that
/// is owed for it is handed back beside the outcome.
pub fn conclude_command(owner: &mut Owner, returned: Option<CommandResult>) -> (r: (
    Result<Value, BridgeError>,
    Option<Release>,
))
    ensures
        outcome_view(r.0) == concluded(returned_view(returned)),
        r.1 == old(owner).owed(),
        *final(owner) == old(owner).after_release(),
{
    let outcome = match returned {
        None => Err(BridgeError::Execution(None)),
        Some(result) => match result.command_error {
            Some(error) => Err(BridgeError::Execution(Some(error))),
            None => match &result.response {
                None => Ok(Value::Absent),
                Some(response) => decode(response),
            },
        },
    };
    let owed = owner.release();
    (outcome, owed)
}

/// A native result with a populated error field comes to an execution
/// failure that shows the record's code and its message, both unmodified,
/// whatever the rest of the result holds.
pub proof fn law_error_field_is_surfaced_unmodified(result: CommandResultView)
    requires
        result.command_error is Some,
    ensures
        concluded(Some(result)) is Err,
        ({
            let failure = concluded(Some(result))->Err_0;
            let (kind, message) = result.command_error->Some_0;
            &&& failure.class() == ErrorClass::Execution
            &&& failure.kind() == Some(kind)
            &&& failure.message() == message
        }),
{
}

} // verus!
