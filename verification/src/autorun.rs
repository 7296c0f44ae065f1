//! Run-at-login: what is written to and read from the per-user autostart
//! entries. The registry itself is the caller's business; here are the bytes
//! and the decisions.

use crate::utils::{to_utf16, utf16_of};
use vstd::prelude::*;
use vstd::string::*;

verus! {

/// Registry type of a string value.
pub const REG_SZ: u32 = 1;

/// Registry type of a binary value.
pub const REG_BINARY: u32 = 3;

/// First byte of a startup marker that enables the entry.
pub const MARKER_ENABLED: u8 = 2;

/// First byte of a startup marker that disables the entry.
pub const MARKER_DISABLED: u8 = 3;

/// The two names under which the application has registered itself: the
/// current one and that of an earlier release.
#[derive(Clone, Copy, Debug, PartialEq, Eq, Structural)]
pub enum EntryName {
    Current,
    Legacy,
}

/// One step of changing the autostart registration.
#[derive(Clone, Copy, Debug, PartialEq, Eq, Structural)]
pub enum RegistryOp {
    /// Write the command line under the current name. Failure ends the plan.
    SetRunValue,
    /// Delete an autostart value. Failure is ignored.
    DeleteRunValue(EntryName),
    /// Write the startup marker of the current name. Failure ends the plan.
    WriteMarker { enabled: bool },
    /// Delete a startup marker. Failure is ignored.
    DeleteMarker(EntryName),
}

/// Little-endian bytes of a sequence of 16-bit units.
pub open spec fn le_bytes(units: Seq<u16>) -> Seq<u8>
    decreases units.len(),
{
    if units.len() == 0 {
        Seq::empty()
    } else {
        le_bytes(units.drop_last()) + seq![
            (units.last() % 256) as u8,
            (units.last() / 256) as u8,
        ]
    }
}

/// The command line in quotes, as a null-terminated UTF-16 string in bytes.
pub open spec fn run_value(exe: Seq<char>) -> Seq<u8> {
    le_bytes(utf16_of(seq!['"'] + exe + seq!['"']) + seq![0u16])
}

/// The marker to write: the existing one, or eight zero bytes where there is
/// none or it is empty, with its first byte set.
pub open spec fn marker(existing: Option<Seq<u8>>, enabled: bool) -> Seq<u8> {
    let base = match existing {
        Some(data) if data.len() > 0 => data,
        _ => Seq::new(8, |i: int| 0u8),
    };
    base.update(
        0,
        if enabled {
            MARKER_ENABLED
        } else {
            MARKER_DISABLED
        },
    )
}

pub open spec fn disabled_by(existing: Option<Seq<u8>>) -> bool {
    match existing {
        Some(data) => data.len() > 0 && data[0] == MARKER_DISABLED,
        None => false,
    }
}

pub open spec fn plan(enable: bool) -> Seq<RegistryOp> {
    if enable {
        seq![
            RegistryOp::SetRunValue,
            RegistryOp::DeleteRunValue(EntryName::Legacy),
            RegistryOp::WriteMarker { enabled: true },
            RegistryOp::DeleteMarker(EntryName::Legacy),
        ]
    } else {
        seq![
            RegistryOp::DeleteRunValue(EntryName::Current),
            RegistryOp::DeleteRunValue(EntryName::Legacy),
            RegistryOp::WriteMarker { enabled: false },
            RegistryOp::DeleteMarker(EntryName::Legacy),
        ]
    }
}

pub open spec fn view_of(existing: Option<Vec<u8>>) -> Option<Seq<u8>> {
    match existing {
        Some(data) => Some(data@),
        None => None,
    }
}

/// Whether a queried value counts as present: the query succeeded, the value
/// has the expected type and it is not empty.
pub fn value_present(query_ok: bool, value_type: u32, expected_type: u32, size: u32) -> (r: bool)
    ensures
        r == (query_ok && value_type == expected_type && size > 0),
{
    query_ok && value_type == expected_type && size > 0
}

/// The bytes of the autostart value for the executable at `exe`.
pub fn run_value_data(exe: &str) -> (r: Vec<u8>)
    ensures
        r@ == run_value(exe@),
{
    proof {
        reveal_strlit("\"");
    }
    let mut quoted = String::from_str("\"");
    quoted.append(exe);
    quoted.append("\"");
    assert(quoted@ =~= seq!['"'] + exe@ + seq!['"']);
    let units = to_utf16(quoted.as_str());
    let mut out: Vec<u8> = Vec::new();
    let mut i: usize = 0;
    while i < units.len()
        invariant
            i <= units@.len(),
            out@ == le_bytes(units@.take(i as int)),
        decreases units@.len() - i,
    {
        let u: u16 = units[i];
        assert(units@.take(i + 1).drop_last() =~= units@.take(i as int));
        out.push((u % 256) as u8);
        out.push((u / 256) as u8);
        assert(out@ =~= le_bytes(units@.take(i + 1)));
        i += 1;
    }
    assert(units@.take(units@.len() as int) =~= units@);
    out
}

/// The startup marker to write over `existing`.
pub fn startup_marker(existing: Option<Vec<u8>>, enabled: bool) -> (r: Vec<u8>)
    ensures
        r@ == marker(view_of(existing), enabled),
{
    let mut data: Vec<u8> = match existing {
        Some(data) => data,
        None => Vec::new(),
    };
    if data.len() == 0 {
        let mut i: usize = 0;
        while i < 8
            invariant
                i <= 8,
                data@ == Seq::new(i as nat, |j: int| 0u8),
            decreases 8 - i,
        {
            data.push(0u8);
            assert(data@ =~= Seq::new((i + 1) as nat, |j: int| 0u8));
            i += 1;
        }
    }
    data.set(
        0,
        if enabled {
            MARKER_ENABLED
        } else {
            MARKER_DISABLED
        },
    );
    data
}

/// Whether a startup marker switches its entry off.
pub fn startup_entry_disabled(existing: &Option<Vec<u8>>) -> (r: bool)
    ensures
        r == disabled_by(view_of(*existing)),
{
    match existing {
        Some(data) => data.len() > 0 && data[0] == MARKER_DISABLED,
        None => false,
    }
}

/// Whether the application starts at login: an autostart value exists under
/// one of its names, and no startup marker switches it off.
pub fn run_at_login_enabled(
    has_current: bool,
    has_legacy: bool,
    current_marker: &Option<Vec<u8>>,
    legacy_marker: &Option<Vec<u8>>,
) -> (r: bool)
    ensures
        r == ((has_current || has_legacy) && !disabled_by(view_of(*current_marker))
            && !disabled_by(view_of(*legacy_marker))),
{
    if !(has_current || has_legacy) {
        return false;
    }
    !(startup_entry_disabled(current_marker) || startup_entry_disabled(legacy_marker))
}

/// The registry operations that switch autostart on or off, in order.
pub fn login_plan(enable: bool) -> (r: Vec<RegistryOp>)
    ensures
        r@ == plan(enable),
{
    let mut ops: Vec<RegistryOp> = Vec::new();
    if enable {
        ops.push(RegistryOp::SetRunValue);
    } else {
        ops.push(RegistryOp::DeleteRunValue(EntryName::Current));
    }
    ops.push(RegistryOp::DeleteRunValue(EntryName::Legacy));
    ops.push(RegistryOp::WriteMarker { enabled: enable });
    ops.push(RegistryOp::DeleteMarker(EntryName::Legacy));
    assert(ops@ =~= plan(enable));
    ops
}

/// Whether a failure of the operation ends the plan with an error.
pub fn must_succeed(op: RegistryOp) -> (r: bool)
    ensures
        r == (op is SetRunValue || op is WriteMarker),
{
    match op {
        RegistryOp::SetRunValue => true,
        RegistryOp::WriteMarker { .. } => true,
        _ => false,
    }
}

/// A marker written to enable an entry does not disable it, one written to
/// disable it does, and either keeps the length of a marker that was there.
pub proof fn lemma_marker_round_trip(existing: Option<Seq<u8>>, enabled: bool)
    ensures
        disabled_by(Some(marker(existing, enabled))) == !enabled,
        existing is Some && existing->0.len() > 0 ==> marker(existing, enabled).len()
            == existing->0.len(),
        !(existing is Some && existing->0.len() > 0) ==> marker(existing, enabled).len() == 8,
{
}

} // verus!
