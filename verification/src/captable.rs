//! Capability Table Builder: the per-connection list of named constants
//! and invocable functions the audio device family exposes to the host.
//!
//! The table is rebuilt from scratch on every connect and its content is
//! the same each time. Names are fixed-width, null-padded byte fields; a
//! declared name that would not fit is a precondition violation of
//! `str_to_slice`, so an over-long declaration cannot pass verification,
//! let alone be truncated silently.

use vstd::prelude::*;
use crate::names::{padded_chars, str_to_slice};
use crate::value::{TypeTag, Value};

verus! {

/// Width in bytes of every name field in the table.
pub const NAME_BYTES: usize = 64;

/// Which operation a table entry dispatches to. The function id the host
/// passes to `call` is an index into the table; the entry's op picks the
/// operation deterministically.
#[derive(Clone, Copy, Debug, PartialEq, Eq, Structural)]
pub enum FnOp {
    /// Report the device's supported stream configuration ranges.
    GetConfigs,
    /// Open a native output stream with a fresh ring transport.
    OpenStream,
    /// Push sample bytes into a stream's ring transport.
    Write,
    /// Start hardware playback on a stream.
    Play,
}

/// A named constant exposed to the host.
pub struct ConstEntry {
    pub name: Vec<u8>,
    pub type_tag: TypeTag,
    pub value: Value,
}

/// One declared parameter of an invocable function.
pub struct ParamEntry {
    pub name: Vec<u8>,
    pub type_tag: TypeTag,
}

/// One invocable function: its name, return type, parameter list, and
/// the operation it dispatches to.
pub struct FnEntry {
    pub name: Vec<u8>,
    pub ret_type: TypeTag,
    pub params: Vec<ParamEntry>,
    pub op: FnOp,
}

/// The capability table of one device family: ordered constants and
/// ordered functions; a function id is an index into `fns`.
pub struct CapTable {
    pub consts: Vec<ConstEntry>,
    pub fns: Vec<FnEntry>,
}

/// The operations of the audio family, in function-id order.
pub open spec fn audio_ops() -> Seq<FnOp> {
    seq![FnOp::GetConfigs, FnOp::OpenStream, FnOp::Write, FnOp::Play]
}

/// Entry `e` declares the constant `name` of value `code`.
pub open spec fn const_entry_is(e: ConstEntry, name: Seq<char>, code: u8) -> bool {
    &&& e.name@ == padded_chars(name, NAME_BYTES as int)
    &&& e.type_tag == TypeTag::U8
    &&& e.value == Value::U8(code)
}

/// Entry `e` declares the function `name` with the given signature.
pub open spec fn fn_entry_is(
    e: FnEntry,
    name: Seq<char>,
    ret_type: TypeTag,
    op: FnOp,
    n_params: int,
) -> bool {
    &&& e.name@ == padded_chars(name, NAME_BYTES as int)
    &&& e.ret_type == ret_type
    &&& e.op == op
    &&& e.params@.len() == n_params
}

/// Entry `p` declares the parameter `name` of type `tag`.
pub open spec fn param_is(p: ParamEntry, name: Seq<char>, tag: TypeTag) -> bool {
    &&& p.name@ == padded_chars(name, NAME_BYTES as int)
    &&& p.type_tag == tag
}

/// The full static declaration of the audio family's table, relating a
/// built table to every declared name, type, value and operation.
pub open spec fn is_audio_table(t: CapTable) -> bool {
    &&& t.consts@.len() == 11
    &&& const_entry_is(t.consts@[0], "SAMPLE_FORMAT_I8"@, 0)
    &&& const_entry_is(t.consts@[1], "SAMPLE_FORMAT_I16"@, 1)
    &&& const_entry_is(t.consts@[2], "SAMPLE_FORMAT_I24"@, 2)
    &&& const_entry_is(t.consts@[3], "SAMPLE_FORMAT_I32"@, 3)
    &&& const_entry_is(t.consts@[4], "SAMPLE_FORMAT_I64"@, 4)
    &&& const_entry_is(t.consts@[5], "SAMPLE_FORMAT_U8"@, 5)
    &&& const_entry_is(t.consts@[6], "SAMPLE_FORMAT_U16"@, 6)
    &&& const_entry_is(t.consts@[7], "SAMPLE_FORMAT_U32"@, 7)
    &&& const_entry_is(t.consts@[8], "SAMPLE_FORMAT_U64"@, 8)
    &&& const_entry_is(t.consts@[9], "SAMPLE_FORMAT_F32"@, 9)
    &&& const_entry_is(t.consts@[10], "SAMPLE_FORMAT_F64"@, 10)
    &&& t.fns@.len() == 4
    &&& fn_entry_is(t.fns@[0], "get_configs"@, TypeTag::Buf, FnOp::GetConfigs, 0)
    &&& fn_entry_is(t.fns@[1], "open_stream"@, TypeTag::OpaquePtr, FnOp::OpenStream, 5)
    &&& param_is(t.fns@[1].params@[0], "config_sample_format"@, TypeTag::U8)
    &&& param_is(t.fns@[1].params@[1], "config_channels"@, TypeTag::U16)
    &&& param_is(t.fns@[1].params@[2], "config_sample_rate"@, TypeTag::U32)
    &&& param_is(t.fns@[1].params@[3], "config_buf_size"@, TypeTag::U32)
    &&& param_is(t.fns@[1].params@[4], "ringbuf_size"@, TypeTag::U32)
    &&& fn_entry_is(t.fns@[2], "write"@, TypeTag::Void, FnOp::Write, 2)
    &&& param_is(t.fns@[2].params@[0], "stream"@, TypeTag::OpaquePtr)
    &&& param_is(t.fns@[2].params@[1], "buf"@, TypeTag::Buf)
    &&& fn_entry_is(t.fns@[3], "play"@, TypeTag::Void, FnOp::Play, 1)
    &&& param_is(t.fns@[3].params@[0], "stream"@, TypeTag::OpaquePtr)
    &&& forall|i: int| 0 <= i < 4 ==> #[trigger] t.fns@[i].op == audio_ops()[i]
}

/// Builds the audio family's capability table. Every connect rebuilds it
/// and gets the same content, fixed entirely by `is_audio_table`.
pub fn audio_capability_table() -> (t: CapTable)
    ensures
        is_audio_table(t),
{
    proof {
        reveal_strlit("SAMPLE_FORMAT_I8");
        reveal_strlit("SAMPLE_FORMAT_I16");
        reveal_strlit("SAMPLE_FORMAT_I24");
        reveal_strlit("SAMPLE_FORMAT_I32");
        reveal_strlit("SAMPLE_FORMAT_I64");
        reveal_strlit("SAMPLE_FORMAT_U8");
        reveal_strlit("SAMPLE_FORMAT_U16");
        reveal_strlit("SAMPLE_FORMAT_U32");
        reveal_strlit("SAMPLE_FORMAT_U64");
        reveal_strlit("SAMPLE_FORMAT_F32");
        reveal_strlit("SAMPLE_FORMAT_F64");
    }
    let mut consts: Vec<ConstEntry> = Vec::new();
    consts.push(audio_const("SAMPLE_FORMAT_I8", 0));
    consts.push(audio_const("SAMPLE_FORMAT_I16", 1));
    consts.push(audio_const("SAMPLE_FORMAT_I24", 2));
    consts.push(audio_const("SAMPLE_FORMAT_I32", 3));
    consts.push(audio_const("SAMPLE_FORMAT_I64", 4));
    consts.push(audio_const("SAMPLE_FORMAT_U8", 5));
    consts.push(audio_const("SAMPLE_FORMAT_U16", 6));
    consts.push(audio_const("SAMPLE_FORMAT_U32", 7));
    consts.push(audio_const("SAMPLE_FORMAT_U64", 8));
    consts.push(audio_const("SAMPLE_FORMAT_F32", 9));
    consts.push(audio_const("SAMPLE_FORMAT_F64", 10));

    proof {
        reveal_strlit("get_configs");
        reveal_strlit("open_stream");
        reveal_strlit("config_sample_format");
        reveal_strlit("config_channels");
        reveal_strlit("config_sample_rate");
        reveal_strlit("config_buf_size");
        reveal_strlit("ringbuf_size");
        reveal_strlit("write");
        reveal_strlit("buf");
        reveal_strlit("play");
        reveal_strlit("stream");
    }
    let mut fns: Vec<FnEntry> = Vec::new();

    let get_configs_params: Vec<ParamEntry> = Vec::new();
    fns.push(FnEntry {
        name: str_to_slice("get_configs", NAME_BYTES),
        ret_type: TypeTag::Buf,
        params: get_configs_params,
        op: FnOp::GetConfigs,
    });

    let mut open_stream_params: Vec<ParamEntry> = Vec::new();
    open_stream_params.push(audio_param("config_sample_format", TypeTag::U8));
    open_stream_params.push(audio_param("config_channels", TypeTag::U16));
    open_stream_params.push(audio_param("config_sample_rate", TypeTag::U32));
    open_stream_params.push(audio_param("config_buf_size", TypeTag::U32));
    open_stream_params.push(audio_param("ringbuf_size", TypeTag::U32));
    fns.push(FnEntry {
        name: str_to_slice("open_stream", NAME_BYTES),
        ret_type: TypeTag::OpaquePtr,
        params: open_stream_params,
        op: FnOp::OpenStream,
    });

    let mut write_params: Vec<ParamEntry> = Vec::new();
    write_params.push(audio_param("stream", TypeTag::OpaquePtr));
    write_params.push(audio_param("buf", TypeTag::Buf));
    fns.push(FnEntry {
        name: str_to_slice("write", NAME_BYTES),
        ret_type: TypeTag::Void,
        params: write_params,
        op: FnOp::Write,
    });

    let mut play_params: Vec<ParamEntry> = Vec::new();
    play_params.push(audio_param("stream", TypeTag::OpaquePtr));
    fns.push(FnEntry {
        name: str_to_slice("play", NAME_BYTES),
        ret_type: TypeTag::Void,
        params: play_params,
        op: FnOp::Play,
    });

    CapTable { consts, fns }
}

/// One constant entry of the audio table: a `u8`-typed sample-format
/// code under the given name.
fn audio_const(name: &str, code: u8) -> (e: ConstEntry)
    requires
        vstd::string::is_ascii(name),
        name@.len() + 1 <= NAME_BYTES,
    ensures
        const_entry_is(e, name@, code),
{
    ConstEntry { name: str_to_slice(name, NAME_BYTES), type_tag: TypeTag::U8, value: Value::U8(code) }
}

/// One parameter entry under the given name and type.
fn audio_param(name: &str, tag: TypeTag) -> (p: ParamEntry)
    requires
        vstd::string::is_ascii(name),
        name@.len() + 1 <= NAME_BYTES,
    ensures
        param_is(p, name@, tag),
{
    ParamEntry { name: str_to_slice(name, NAME_BYTES), type_tag: tag }
}

/// Distinct dispatch: distinct function ids of the audio table dispatch
/// to distinct operations.
pub proof fn lemma_audio_dispatch_distinct(i: int, j: int)
    requires
        0 <= i < j < audio_ops().len(),
    ensures
        audio_ops()[i] != audio_ops()[j],
{
}

/// The table's content is fixed: any two tables meeting the audio
/// declaration agree on every name, type, value and operation, so every
/// connect exchanges the same capability table.
pub proof fn lemma_audio_table_content_fixed(t1: CapTable, t2: CapTable)
    requires
        is_audio_table(t1),
        is_audio_table(t2),
    ensures
        t1.consts@.len() == t2.consts@.len(),
        t1.fns@.len() == t2.fns@.len(),
        forall|i: int|
            0 <= i < t1.consts@.len() ==> {
                &&& (#[trigger] t1.consts@[i]).name@ == t2.consts@[i].name@
                &&& t1.consts@[i].type_tag == t2.consts@[i].type_tag
                &&& t1.consts@[i].value == t2.consts@[i].value
            },
        forall|i: int|
            0 <= i < t1.fns@.len() ==> {
                &&& (#[trigger] t1.fns@[i]).name@ == t2.fns@[i].name@
                &&& t1.fns@[i].ret_type == t2.fns@[i].ret_type
                &&& t1.fns@[i].op == t2.fns@[i].op
                &&& t1.fns@[i].params@.len() == t2.fns@[i].params@.len()
            },
{
}

} // verus!
