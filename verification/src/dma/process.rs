use vstd::prelude::*;
use memflow::error::PartialError;
use memflow::mem::MemoryView;
use memflow::os::{Os, Process};
use memflow::types::Address;
use crate::dma::context::DmaCtx;
use crate::error::RadarError;
use crate::structs::vec3::Vec3;

verus! {

/// The error value that memflow reports for an operation that failed outright.
#[verifier::external_type_specification]
#[verifier::external_body]
pub struct ExMemflowError(memflow::error::Error);

/// memflow's list of connector and OS plugins found on this machine.
#[verifier::external_type_specification]
#[verifier::external_body]
pub struct ExInventory(memflow::plugins::Inventory);

/// The arguments handed to a memflow connector plugin.
#[verifier::external_type_specification]
#[verifier::external_body]
pub struct ExConnectorArgs(memflow::plugins::ConnectorArgs);

/// The OS layer (win32 over a connector) that memflow built. Verus cannot be told of
/// memflow's plugin object types themselves (their declaration's bounds cannot be matched),
/// so the object is held here out of Verus's sight.
#[verifier::external_body]
pub struct OsHandle {
    pub(crate) inner: memflow::plugins::OsInstanceArcBox<'static>,
}

/// The game process as memflow opened it, held out of Verus's sight for the same reason as
/// [`OsHandle`]. A process opened elsewhere can be handed in through the field.
#[verifier::external_body]
pub struct ProcessHandle {
    pub inner: memflow::plugins::IntoProcessInstanceArcBox<'static>,
}

/// One read of the game's memory, as the radar made it: where it read and what came back.
/// The radar's reads are recorded in this form (see [`DmaCtx::reads`]) so that contracts can
/// say which addresses a function read and how its result follows from what it read.
pub ghost enum MemRead {
    /// A read of an integer of `size` bytes that completed.
    Value { addr: u64, size: nat, value: int },
    /// A read of three consecutive 32-bit words (a vector of `f32` bit patterns).
    Triple { addr: u64, x: u32, y: u32, z: u32 },
    /// A read of `data.len()` raw bytes that completed.
    Bytes { addr: u64, data: Seq<u8> },
    /// A read of a string of at most `max_len` bytes, cut at its first zero byte.
    Text { addr: u64, max_len: nat, text: Seq<char> },
    /// A buffer of a batched read: its contents once the batch ran. A batch does not fail:
    /// memflow fills the buffer of a read that failed with zeros, and does not report which
    /// reads failed.
    Batched { addr: u64, data: Seq<u8> },
    /// A check of the game process's state, and whether memflow reported it exited.
    ProcessState { dead: bool },
}

/// What a read that failed may report.
pub open spec fn failed_read(e: RadarError) -> bool {
    !(e is GameVersionMismatch)
}

/// Searches memflow's plugin directories for connector and OS plugins.
/// (`memflow::plugins::Inventory::scan`; what it finds depends on the machine.)
#[verifier::external_body]
pub(crate) fn scan_inventory() -> memflow::plugins::Inventory {
    memflow::plugins::Inventory::scan()
}

/// The names of the connector plugins that an inventory found
/// (`memflow::plugins::Inventory::available_connectors`); they depend on what the scan found
/// on the machine, so nothing is known of them.
#[verifier::external_body]
pub(crate) fn available_connectors(inventory: &memflow::plugins::Inventory) -> Vec<String> {
    inventory.available_connectors()
}

/// Connector arguments holding one argument, `key` set to `value`
/// (`memflow::plugins::Args::new().insert(key, value)` handed to `ConnectorArgs::new`).
#[verifier::external_body]
pub(crate) fn connector_args(key: &str, value: &str) -> memflow::plugins::ConnectorArgs {
    let args = memflow::plugins::Args::new().insert(key, value);
    memflow::plugins::ConnectorArgs::new(None, args, None)
}

/// Builds the OS plugin `os` over the connector plugin `connector`
/// (`Inventory::builder().connector(..).os(..).build()`); whether it succeeds depends on the
/// machine.
#[verifier::external_body]
pub(crate) fn build_os(
    inventory: &mut memflow::plugins::Inventory,
    connector: &str,
    os: &str,
) -> Result<OsHandle, memflow::error::Error> {
    let built = inventory.builder().connector(connector).os(os).build()?;
    Ok(OsHandle { inner: built })
}

/// As [`build_os`], with arguments for the connector
/// (`Inventory::builder().connector(..).args(..).os(..).build()`).
#[verifier::external_body]
pub(crate) fn build_os_with_args(
    inventory: &mut memflow::plugins::Inventory,
    connector: &str,
    args: memflow::plugins::ConnectorArgs,
    os: &str,
) -> Result<OsHandle, memflow::error::Error> {
    let built = inventory.builder().connector(connector).args(args).os(os).build()?;
    Ok(OsHandle { inner: built })
}

/// Opens the process named `name` on the OS layer (`Os::into_process_by_name`).
#[verifier::external_body]
pub(crate) fn open_process(os: OsHandle, name: &str) -> Result<ProcessHandle, memflow::error::Error> {
    let process = os.inner.into_process_by_name(name)?;
    Ok(ProcessHandle { inner: process })
}

/// The base address of the module named `name` in the process
/// (`Process::module_by_name`, field `base`).
#[verifier::external_body]
pub(crate) fn module_base(process: &mut ProcessHandle, name: &str) -> Result<u64, memflow::error::Error> {
    let module = process.inner.module_by_name(name)?;
    Ok(module.base.to_umem())
}

/// How a connection to the game was opened: the connector plugin and its argument (key and
/// value) if any, the OS plugin over it, the process, and the two modules whose bases it took.
pub ghost struct Opening {
    pub connector: Seq<char>,
    pub arg: Option<(Seq<char>, Seq<char>)>,
    pub os: Seq<char>,
    pub process: Seq<char>,
    pub client_module: Seq<char>,
    pub engine_module: Seq<char>,
}

/// The view of an optional argument.
pub open spec fn arg_view(arg: Option<(&str, &str)>) -> Option<(Seq<char>, Seq<char>)> {
    match arg {
        Some((k, v)) => Some((k@, v@)),
        None => None,
    }
}

/// Builds the OS plugin `os` over the connector plugin `connector`, handing the connector
/// the argument `arg` (key, value) where there is one; the ghost part of the result records
/// what was handed over.
pub(crate) fn open_os(
    inventory: &mut memflow::plugins::Inventory,
    connector: &str,
    arg: Option<(&str, &str)>,
    os: &str,
) -> (r: (Result<OsHandle, memflow::error::Error>, Ghost<(Seq<char>, Option<(Seq<char>, Seq<char>)>, Seq<char>)>))
    ensures
        r.1@ == (connector@, arg_view(arg), os@),
{
    let built = match arg {
        Some((key, value)) => {
            let args = connector_args(key, value);
            build_os_with_args(inventory, connector, args, os)
        },
        None => build_os(inventory, connector, os),
    };
    (built, Ghost((connector@, arg_view(arg), os@)))
}

/// Opens the process named `name`; the ghost part of the result records the name.
pub(crate) fn open_process_named(os: OsHandle, name: &str) -> (r: (Result<ProcessHandle, memflow::error::Error>, Ghost<Seq<char>>))
    ensures
        r.1@ == name@,
{
    (open_process(os, name), Ghost(name@))
}

/// The base of the module named `name`; the ghost part of the result records the name.
pub(crate) fn module_base_named(process: &mut ProcessHandle, name: &str) -> (r: (Result<u64, memflow::error::Error>, Ghost<Seq<char>>))
    ensures
        r.1@ == name@,
{
    (module_base(process, name), Ghost(name@))
}

/// Whether memflow reports the process as exited (`Process::state().is_dead()`); the check
/// and its answer are recorded in the context's log.
#[verifier::external_body]
pub(crate) fn process_is_dead(ctx: &mut DmaCtx) -> (r: bool)
    ensures
        final(ctx).same_game(*old(ctx)),
        final(ctx).reads@ == old(ctx).reads@.push(MemRead::ProcessState { dead: r }),
{
    ctx.process.inner.state().is_dead()
}

/// Reads a 64-bit word (`MemoryView::read_addr64`). A read that completes only in part is
/// reported as `MemflowPartialAddress`.
#[verifier::external_body]
pub(crate) fn read_u64(ctx: &mut DmaCtx, addr: u64) -> (r: Result<u64, RadarError>)
    ensures
        final(ctx).same_game(*old(ctx)),
        match r {
            Ok(v) => final(ctx).reads@ == old(ctx).reads@.push(MemRead::Value { addr, size: 8, value: v as int }),
            Err(e) => final(ctx).reads@ == old(ctx).reads@ && (e is Memflow || e is MemflowPartialAddress),
        },
{
    match ctx.process.inner.read_addr64(Address::from(addr)) {
        Ok(v) => Ok(v.to_umem()),
        Err(PartialError::Error(e)) => Err(RadarError::Memflow(e)),
        Err(PartialError::PartialVirtualRead(v)) => Err(RadarError::MemflowPartialAddress(v.to_umem())),
        Err(PartialError::PartialVirtualWrite(v)) => Err(RadarError::MemflowPartialAddress(v.to_umem())),
    }
}

/// Reads a signed 32-bit integer (`MemoryView::read::<i32>`).
#[verifier::external_body]
pub(crate) fn read_i32(ctx: &mut DmaCtx, addr: u64) -> (r: Result<i32, RadarError>)
    ensures
        final(ctx).same_game(*old(ctx)),
        match r {
            Ok(v) => final(ctx).reads@ == old(ctx).reads@.push(MemRead::Value { addr, size: 4, value: v as int }),
            Err(e) => final(ctx).reads@ == old(ctx).reads@ && (e is Memflow || e is MemflowPartiali32),
        },
{
    match ctx.process.inner.read::<i32>(Address::from(addr)) {
        Ok(v) => Ok(v),
        Err(PartialError::Error(e)) => Err(RadarError::Memflow(e)),
        Err(PartialError::PartialVirtualRead(v)) => Err(RadarError::MemflowPartiali32(v)),
        Err(PartialError::PartialVirtualWrite(v)) => Err(RadarError::MemflowPartiali32(v)),
    }
}

/// Reads an unsigned 32-bit integer (`MemoryView::read::<u32>`).
#[verifier::external_body]
pub(crate) fn read_u32(ctx: &mut DmaCtx, addr: u64) -> (r: Result<u32, RadarError>)
    ensures
        final(ctx).same_game(*old(ctx)),
        match r {
            Ok(v) => final(ctx).reads@ == old(ctx).reads@.push(MemRead::Value { addr, size: 4, value: v as int }),
            Err(e) => final(ctx).reads@ == old(ctx).reads@ && (e is Memflow || e is MemflowPartialu32),
        },
{
    match ctx.process.inner.read::<u32>(Address::from(addr)) {
        Ok(v) => Ok(v),
        Err(PartialError::Error(e)) => Err(RadarError::Memflow(e)),
        Err(PartialError::PartialVirtualRead(v)) => Err(RadarError::MemflowPartialu32(v)),
        Err(PartialError::PartialVirtualWrite(v)) => Err(RadarError::MemflowPartialu32(v)),
    }
}

/// Reads the four bytes of a single-precision float as its bit pattern
/// (`MemoryView::read::<u32>`).
#[verifier::external_body]
pub(crate) fn read_f32_bits(ctx: &mut DmaCtx, addr: u64) -> (r: Result<u32, RadarError>)
    ensures
        final(ctx).same_game(*old(ctx)),
        match r {
            Ok(v) => final(ctx).reads@ == old(ctx).reads@.push(MemRead::Value { addr, size: 4, value: v as int }),
            Err(e) => final(ctx).reads@ == old(ctx).reads@ && (e is Memflow || e is MemflowPartialf32),
        },
{
    match ctx.process.inner.read::<u32>(Address::from(addr)) {
        Ok(v) => Ok(v),
        Err(PartialError::Error(e)) => Err(RadarError::Memflow(e)),
        Err(PartialError::PartialVirtualRead(v)) => Err(RadarError::MemflowPartialf32(v)),
        Err(PartialError::PartialVirtualWrite(v)) => Err(RadarError::MemflowPartialf32(v)),
    }
}

/// Reads one byte (`MemoryView::read::<u8>`).
#[verifier::external_body]
pub(crate) fn read_u8(ctx: &mut DmaCtx, addr: u64) -> (r: Result<u8, RadarError>)
    ensures
        final(ctx).same_game(*old(ctx)),
        match r {
            Ok(v) => final(ctx).reads@ == old(ctx).reads@.push(MemRead::Value { addr, size: 1, value: v as int }),
            Err(e) => final(ctx).reads@ == old(ctx).reads@ && (e is Memflow || e is MemflowPartialu8),
        },
{
    match ctx.process.inner.read::<u8>(Address::from(addr)) {
        Ok(v) => Ok(v),
        Err(PartialError::Error(e)) => Err(RadarError::Memflow(e)),
        Err(PartialError::PartialVirtualRead(v)) => Err(RadarError::MemflowPartialu8(v)),
        Err(PartialError::PartialVirtualWrite(v)) => Err(RadarError::MemflowPartialu8(v)),
    }
}

/// Reads a signed 16-bit integer (`MemoryView::read::<i16>`).
#[verifier::external_body]
pub(crate) fn read_i16(ctx: &mut DmaCtx, addr: u64) -> (r: Result<i16, RadarError>)
    ensures
        final(ctx).same_game(*old(ctx)),
        match r {
            Ok(v) => final(ctx).reads@ == old(ctx).reads@.push(MemRead::Value { addr, size: 2, value: v as int }),
            Err(e) => final(ctx).reads@ == old(ctx).reads@ && (e is Memflow || e is MemflowPartiali16),
        },
{
    match ctx.process.inner.read::<i16>(Address::from(addr)) {
        Ok(v) => Ok(v),
        Err(PartialError::Error(e)) => Err(RadarError::Memflow(e)),
        Err(PartialError::PartialVirtualRead(v)) => Err(RadarError::MemflowPartiali16(v)),
        Err(PartialError::PartialVirtualWrite(v)) => Err(RadarError::MemflowPartiali16(v)),
    }
}

/// Reads three consecutive 32-bit words, a vector of `f32` bit patterns
/// (`MemoryView::read::<[u32; 3]>`).
#[verifier::external_body]
pub(crate) fn read_vec3(ctx: &mut DmaCtx, addr: u64) -> (r: Result<Vec3, RadarError>)
    ensures
        final(ctx).same_game(*old(ctx)),
        match r {
            Ok(v) => final(ctx).reads@ == old(ctx).reads@.push(MemRead::Triple { addr, x: v.x, y: v.y, z: v.z }),
            Err(e) => final(ctx).reads@ == old(ctx).reads@ && (e is Memflow || e is MemflowPartialVec3),
        },
{
    match ctx.process.inner.read::<[u32; 3]>(Address::from(addr)) {
        Ok(v) => Ok(Vec3 { x: v[0], y: v[1], z: v[2] }),
        Err(PartialError::Error(e)) => Err(RadarError::Memflow(e)),
        Err(PartialError::PartialVirtualRead(v)) => Err(RadarError::MemflowPartialVec3(v[0], v[1], v[2])),
        Err(PartialError::PartialVirtualWrite(v)) => Err(RadarError::MemflowPartialVec3(v[0], v[1], v[2])),
    }
}

/// Reads `len` raw bytes (`MemoryView::read_raw`); on success there are exactly `len` of them.
#[verifier::external_body]
pub(crate) fn read_raw(ctx: &mut DmaCtx, addr: u64, len: usize) -> (r: Result<Vec<u8>, RadarError>)
    ensures
        final(ctx).same_game(*old(ctx)),
        match r {
            Ok(v) => v@.len() == len && final(ctx).reads@ == old(ctx).reads@.push(MemRead::Bytes { addr, data: v@ }),
            Err(e) => final(ctx).reads@ == old(ctx).reads@ && (e is Memflow || e is MemflowPartialVecu8),
        },
{
    match ctx.process.inner.read_raw(Address::from(addr), len) {
        Ok(v) => Ok(v),
        Err(PartialError::Error(e)) => Err(RadarError::Memflow(e)),
        Err(PartialError::PartialVirtualRead(v)) => Err(RadarError::MemflowPartialVecu8(v)),
        Err(PartialError::PartialVirtualWrite(v)) => Err(RadarError::MemflowPartialVecu8(v)),
    }
}

/// Reads a string of at most `max_len` bytes, cut at its first zero byte, invalid UTF-8
/// replaced (`MemoryView::read_utf8_lossy`, which `read_char_string_n` forwards to). A
/// partial read is not an error there: unreadable bytes read as zero. The string has at
/// most `max_len` characters, since each comes from at least one byte.
#[verifier::external_body]
pub(crate) fn read_text(ctx: &mut DmaCtx, addr: u64, max_len: usize) -> (r: Result<String, RadarError>)
    ensures
        final(ctx).same_game(*old(ctx)),
        match r {
            Ok(s) => s@.len() <= max_len
                && final(ctx).reads@ == old(ctx).reads@.push(MemRead::Text { addr, max_len: max_len as nat, text: s@ }),
            Err(e) => final(ctx).reads@ == old(ctx).reads@ && (e is Memflow || e is MemflowPartialString),
        },
{
    match ctx.process.inner.read_utf8_lossy(Address::from(addr), max_len) {
        Ok(s) => Ok(s),
        Err(PartialError::Error(e)) => Err(RadarError::Memflow(e)),
        Err(PartialError::PartialVirtualRead(s)) => Err(RadarError::MemflowPartialString(s)),
        Err(PartialError::PartialVirtualWrite(s)) => Err(RadarError::MemflowPartialString(s)),
    }
}

/// Runs one batch of reads (`MemoryView::batcher` and `MemoryViewBatcher::read_raw_into`, the
/// batch being committed when the batcher is dropped): `bufs[i]` is filled from `addrs[i]`.
/// memflow fills the buffer of a read that failed with zeros and reports no failure per read,
/// so nothing tells such zeros from memory that holds zeros; the buffers keep their lengths,
/// and each ends up recorded as a `Batched` read, in order.
#[verifier::external_body]
pub(crate) fn read_batch(ctx: &mut DmaCtx, addrs: &Vec<u64>, bufs: &mut Vec<Vec<u8>>)
    requires
        old(bufs)@.len() == addrs@.len(),
    ensures
        final(ctx).same_game(*old(ctx)),
        final(bufs)@.len() == old(bufs)@.len(),
        forall|i: int| 0 <= i < old(bufs)@.len() ==> #[trigger] final(bufs)@[i]@.len() == old(bufs)@[i]@.len(),
        final(ctx).reads@ == old(ctx).reads@ + Seq::new(
            addrs@.len(),
            |i: int| MemRead::Batched { addr: addrs@[i], data: final(bufs)@[i]@ },
        ),
{
    let mut batcher = ctx.process.inner.batcher();
    for (addr, buf) in addrs.iter().zip(bufs.iter_mut()) {
        batcher.read_raw_into(Address::from(*addr), buf.as_mut_slice());
    }
}

} // verus!
