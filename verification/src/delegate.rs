//! The delegation channel: every operation handed to an outside interpreter as
//! a function name and one JSON argument, and its standard output read back.

use crate::error::{outcome_of, Fault, ServiceError};
use crate::json::{
    find_last, json_parse, lemma_object_view, member_text, outcome_view, read_text, write_member,
    Doc, Json,
};
use crate::response::{EnvelopeModel, Payload, PayloadModel, ResponseEnvelope};
use crate::text::{decode, trim, trimmed};
use vstd::prelude::*;
use vstd::utf8::{decode_utf8, valid_utf8};

verus! {

/// The five things the gateway can be asked.
#[derive(Clone, Copy, Debug, PartialEq, Eq, Structural)]
pub enum Operation {
    /// Find the stored video that is closest in meaning to a text.
    SimilaritySearch,
    /// Find videos by keyword.
    VideoSearch,
    /// Describe the channel that a video belongs to.
    ChannelInfo,
    /// Store the embeddings of a channel's videos.
    SaveChannel,
    /// Fetch the transcript of a video.
    Transcript,
}

impl Operation {
    /// The name of the function that the interpreter runs for the operation.
    pub open spec fn function_text(self) -> Seq<char> {
        match self {
            Operation::SimilaritySearch => "search_similar_youtube_video"@,
            Operation::VideoSearch => "search_youtube_videos"@,
            Operation::ChannelInfo => "get_channel_info"@,
            Operation::SaveChannel => "save_channel_youtube_embeddings"@,
            Operation::Transcript => "get_youtube_transcript"@,
        }
    }

    /// The key under which the operation's one input is passed.
    pub open spec fn key_text(self) -> Seq<char> {
        match self {
            Operation::SimilaritySearch => "query"@,
            Operation::VideoSearch => "query"@,
            Operation::ChannelInfo => "video_url"@,
            Operation::SaveChannel => "channel_id"@,
            Operation::Transcript => "url"@,
        }
    }

    /// The key under which plain text is reported, for the operations whose
    /// function may answer in plain text.
    pub open spec fn plain_key_text(self) -> Option<Seq<char>> {
        match self {
            Operation::SaveChannel => Some("message"@),
            Operation::Transcript => Some("transcript"@),
            _ => None,
        }
    }

    /// Whether a result that is itself a string is parsed a second time.
    pub open spec fn decodes_twice(self) -> bool {
        self == Operation::VideoSearch
    }

    /// The name of the function that the interpreter runs for the operation.
    pub fn function_name(&self) -> (r: &'static str)
        ensures
            r@ == self.function_text(),
    {
        match self {
            Operation::SimilaritySearch => "search_similar_youtube_video",
            Operation::VideoSearch => "search_youtube_videos",
            Operation::ChannelInfo => "get_channel_info",
            Operation::SaveChannel => "save_channel_youtube_embeddings",
            Operation::Transcript => "get_youtube_transcript",
        }
    }

    /// The key under which the operation's one input is passed.
    pub fn argument_key(&self) -> (r: &'static str)
        ensures
            r@ == self.key_text(),
    {
        match self {
            Operation::SimilaritySearch => "query",
            Operation::VideoSearch => "query",
            Operation::ChannelInfo => "video_url",
            Operation::SaveChannel => "channel_id",
            Operation::Transcript => "url",
        }
    }

    /// The key under which plain text is reported, if the operation's
    /// function may answer in plain text.
    pub fn plain_text_key(&self) -> (r: Option<&'static str>)
        ensures
            r.deep_view() == self.plain_key_text(),
    {
        match self {
            Operation::SaveChannel => Some("message"),
            Operation::Transcript => Some("transcript"),
            _ => None,
        }
    }
}

/// One run of the interpreter: the program, the directory it runs in, and
/// its three arguments, which are the script, the function's name and the
/// function's argument, a JSON object.
#[derive(Debug, PartialEq, Eq)]
pub struct DelegateCommand {
    pub program: String,
    pub directory: String,
    pub script: String,
    pub function: String,
    pub argument: String,
}

/// The mathematical value of a `DelegateCommand`.
pub struct CommandModel {
    pub program: Seq<char>,
    pub directory: Seq<char>,
    pub script: Seq<char>,
    pub function: Seq<char>,
    pub argument: Seq<char>,
}

impl DeepView for DelegateCommand {
    type V = CommandModel;

    open spec fn deep_view(&self) -> CommandModel {
        CommandModel {
            program: self.program@,
            directory: self.directory@,
            script: self.script@,
            function: self.function@,
            argument: self.argument@,
        }
    }
}

/// The command that hands `op` on `input` to the interpreter: the
/// interpreter of the local environment, run in the current directory on
/// the client script. The argument is the JSON object that holds `input`
/// under the operation's key.
pub open spec fn command_model(op: Operation, input: Seq<char>) -> CommandModel {
    CommandModel {
        program: "./venv/bin/python"@,
        directory: "."@,
        script: "my_mcp_client.py"@,
        function: op.function_text(),
        argument: member_text(op.key_text(), input),
    }
}

/// Builds the command that hands `op` on `input` to the interpreter.
pub fn command(op: Operation, input: &str) -> (r: DelegateCommand)
    ensures
        r.deep_view() == command_model(op, input@),
{
    DelegateCommand {
        program: "./venv/bin/python".to_owned(),
        directory: ".".to_owned(),
        script: "my_mcp_client.py".to_owned(),
        function: op.function_name().to_owned(),
        argument: write_member(op.argument_key(), input),
    }
}

/// What a finished process leaves behind.
#[derive(Debug, PartialEq, Eq)]
pub struct ProcessOutput {
    /// Whether the process ended with the exit status of success.
    pub success: bool,
    pub stdout: Vec<u8>,
    pub stderr: Vec<u8>,
}

/// The text that a finished process answered with. After success it is the
/// standard output without the white space around it. After a failure both
/// streams are kept in the error. Bytes that are no UTF-8 are an error of
/// their own, whichever stream they come from.
pub open spec fn output_text(success: bool, stdout: Seq<u8>, stderr: Seq<u8>) -> Result<
    Seq<char>,
    Fault,
> {
    if success {
        if valid_utf8(stdout) {
            Ok(trimmed(decode_utf8(stdout)))
        } else {
            Err(Fault::DelegationEncoding)
        }
    } else if valid_utf8(stderr) && valid_utf8(stdout) {
        Err(Fault::Delegation { stderr: decode_utf8(stderr), stdout: decode_utf8(stdout) })
    } else {
        Err(Fault::DelegationEncoding)
    }
}

/// Reads what a finished process left behind.
pub fn read_output(output: ProcessOutput) -> (r: Result<String, ServiceError>)
    ensures
        outcome_of(r) == output_text(output.success, output.stdout@, output.stderr@),
{
    let ProcessOutput { success, stdout, stderr } = output;
    if success {
        match decode(stdout) {
            Some(text) => Ok(trim(text.as_str())),
            None => Err(ServiceError::DelegationEncoding),
        }
    } else {
        match decode(stderr) {
            Some(err_text) => match decode(stdout) {
                Some(out_text) => Err(
                    ServiceError::Delegation { stderr: err_text, stdout: out_text },
                ),
                None => Err(ServiceError::DelegationEncoding),
            },
            None => Err(ServiceError::DelegationEncoding),
        }
    }
}

/// The effective payload of a document: its member `result` where it has
/// one, the whole document where it has none.
pub open spec fn unwrapped(doc: Doc) -> Doc {
    match doc.get("result"@) {
        Some(inner) => inner,
        None => doc,
    }
}

/// Takes the member `result` out of a document, and says whether there was
/// one; a document without it comes back whole.
pub fn take_result(doc: Json) -> (r: (Json, bool))
    ensures
        r.0@ == unwrapped(doc@),
        r.1 == doc@.get("result"@) is Some,
{
    match doc {
        Json::Object(mut members) => {
            proof {
                lemma_object_view(members);
            }
            match find_last(&members, "result") {
                Some(i) => {
                    let member = members.remove(i);
                    (member.value, true)
                },
                None => (Json::Object(members), false),
            }
        },
        other => (other, false),
    }
}

/// Where the reading of an output stands after its first parse.
#[derive(Debug, PartialEq)]
pub enum FirstStage {
    /// The payload is settled, or the output is refused.
    Settled(Result<Json, ServiceError>),
    /// The result is a string that is to be parsed once more.
    Again(String),
}

/// The mathematical value of a `FirstStage`.
pub enum FirstModel {
    Settled(Result<Doc, Fault>),
    Again(Seq<char>),
}

impl DeepView for FirstStage {
    type V = FirstModel;

    open spec fn deep_view(&self) -> FirstModel {
        match self {
            FirstStage::Settled(r) => FirstModel::Settled(outcome_of(*r)),
            FirstStage::Again(s) => FirstModel::Again(s@),
        }
    }
}

/// What follows from the first parse of `output`.
///
/// A document gives its member `result`, or itself where it has none. For
/// the one operation that decodes twice, a `result` that is a string is
/// parsed again. An output that is no JSON is reported as plain text by the
/// operations that allow it, and is an error for the others.
pub open spec fn first_stage(op: Operation, output: Seq<char>, parsed: Result<Doc, Seq<char>>)
    -> FirstModel {
    match parsed {
        Ok(doc) => match doc.get("result"@) {
            Some(Doc::Text(s)) if op.decodes_twice() => FirstModel::Again(s),
            Some(inner) => FirstModel::Settled(Ok(inner)),
            None => FirstModel::Settled(Ok(doc)),
        },
        Err(message) => match op.plain_key_text() {
            Some(key) => FirstModel::Settled(Ok(Doc::Object(seq![(key, Doc::Text(output))]))),
            None => FirstModel::Settled(Err(Fault::DelegationOutput(message))),
        },
    }
}

/// What follows from the second parse of a string result: the document it
/// holds, or, where it holds none, the string itself.
pub open spec fn second_stage(inner: Seq<char>, reparsed: Result<Doc, Seq<char>>) -> Doc {
    match reparsed {
        Ok(doc) => doc,
        Err(_) => Doc::Text(inner),
    }
}

/// The payload that the output of `op` stands for.
pub open spec fn delegated_payload(op: Operation, output: Seq<char>) -> Result<Doc, Fault> {
    match first_stage(op, output, json_parse(output)) {
        FirstModel::Settled(r) => r,
        FirstModel::Again(inner) => Ok(second_stage(inner, json_parse(inner))),
    }
}

/// Decides what follows from the first parse of `output`.
pub fn after_first_parse(op: Operation, output: String, parsed: Result<Json, String>) -> (r:
    FirstStage)
    ensures
        r.deep_view() == first_stage(op, output@, outcome_view(parsed)),
{
    match parsed {
        Ok(doc) => {
            let (inner, found) = take_result(doc);
            if found && op == Operation::VideoSearch {
                match inner {
                    Json::Text(s) => FirstStage::Again(s),
                    other => FirstStage::Settled(Ok(other)),
                }
            } else {
                FirstStage::Settled(Ok(inner))
            }
        },
        Err(message) => match op.plain_text_key() {
            Some(key) => FirstStage::Settled(Ok(Json::labelled(key, output))),
            None => FirstStage::Settled(Err(ServiceError::DelegationOutput(message))),
        },
    }
}

/// Decides what follows from the second parse of a string result.
pub fn after_second_parse(inner: String, reparsed: Result<Json, String>) -> (r: Json)
    ensures
        r@ == second_stage(inner@, outcome_view(reparsed)),
{
    match reparsed {
        Ok(doc) => doc,
        Err(_) => Json::Text(inner),
    }
}

/// Reads the output of `op` into its payload.
pub fn payload_of(op: Operation, output: String) -> (r: Result<Json, ServiceError>)
    ensures
        outcome_of(r) == delegated_payload(op, output@),
{
    let parsed = read_text(output.as_str());
    match after_first_parse(op, output, parsed) {
        FirstStage::Settled(r) => r,
        FirstStage::Again(inner) => {
            let reparsed = read_text(inner.as_str());
            Ok(after_second_parse(inner, reparsed))
        },
    }
}

/// The envelope that answers `op` once its process has left `output`.
pub open spec fn delegated_response(
    op: Operation,
    success: bool,
    stdout: Seq<u8>,
    stderr: Seq<u8>,
) -> EnvelopeModel {
    match output_text(success, stdout, stderr) {
        Ok(text) => match delegated_payload(op, text) {
            Ok(doc) => EnvelopeModel::of_payload(PayloadModel::Document(doc)),
            Err(fault) => EnvelopeModel::of_fault(fault),
        },
        Err(fault) => EnvelopeModel::of_fault(fault),
    }
}

/// Answers `op` from what its process left behind.
pub fn respond(op: Operation, output: ProcessOutput) -> (r: ResponseEnvelope)
    ensures
        r.deep_view() == delegated_response(op, output.success, output.stdout@, output.stderr@),
        r.deep_view().well_formed(),
{
    match read_output(output) {
        Ok(text) => match payload_of(op, text) {
            Ok(doc) => ResponseEnvelope::of_payload(Payload::Document(doc)),
            Err(error) => ResponseEnvelope::of_error(&error),
        },
        Err(error) => ResponseEnvelope::of_error(&error),
    }
}

/// Only the keyword search parses a result a second time: for every other
/// operation the first parse settles the payload.
pub proof fn lemma_only_keyword_search_decodes_twice(
    op: Operation,
    output: Seq<char>,
    parsed: Result<Doc, Seq<char>>,
)
    requires
        op != Operation::VideoSearch,
    ensures
        first_stage(op, output, parsed) is Settled,
        delegated_payload(op, output) == first_stage(op, output, json_parse(output))->Settled_0,
{
}

/// A run that ended with a failure is answered with an error and the status
/// 500, whatever it wrote.
pub proof fn lemma_failed_run_is_an_error(op: Operation, stdout: Seq<u8>, stderr: Seq<u8>)
    ensures
        !delegated_response(op, false, stdout, stderr).success,
        delegated_response(op, false, stdout, stderr).data is None,
        delegated_response(op, false, stdout, stderr).error is Some,
        delegated_response(op, false, stdout, stderr).status() == 500,
{
}

} // verus!
