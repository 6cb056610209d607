//! The event log walker: per-event decisions and the replay itself.
//!
//! Every record read from the event log is classified: records that could
//! not be decoded, events on other registers and events without a digest
//! are skipped; boot-services-application load events whose payload
//! carries a device path with a file path are candidates for
//! recomputation; every other processed event folds its recorded digest.
//! A recomputation that fails at any stage falls back to the recorded
//! digest, so a failure there is never fatal.  The walk is replayed over
//! an explicit environment: the resolved device symlinks, the mount
//! table, and the readable files with their contents.

use vstd::prelude::*;

use crate::device_path::{
    guid_nodes_wf, spec_traverse_path, spec_traverse_uuid, traverse_device_path, DevicePathNode,
};
use crate::drop_ins::{spec_find_drop_in, DropIn, DropIns, FindDropIn};
use crate::hash::{
    measure_file, spec_digest, spec_measure_pe, spec_output_size, Bits, Hasher, MeasureInPlace,
};
use crate::mount::{
    effective_root, find_mount_dir, partuuid_symlink, spec_effective_root, spec_find_mount,
    spec_partuuid_symlink, MountEntry,
};
use crate::paths::{spec_translate, translate_path};

verus! {

/// The boot-loader register: the only one whose events are processed.
pub const BOOT_LOADER_PCR: u32 = 4;

/// The event type tag, reduced to the one distinction the walker makes.
#[derive(Clone, Copy, PartialEq, Eq, Structural, Debug)]
pub enum EventKind {
    /// A boot-services application load: a recomputation candidate.
    BootServicesApplication,
    /// Any other event type.
    Other,
}

/// The event-specific payload, itself fallible to decode.
pub enum Payload {
    /// The event carried no payload.
    Absent,
    /// The payload could not be decoded.
    Undecodable,
    /// An image-load payload with its optional device path.
    ImageLoad { device_path: Option<Vec<DevicePathNode>> },
    /// A decodable payload of some other shape.
    OtherData,
}

/// One event read from the log.
pub struct Event {
    pub pcr_index: u32,
    pub kind: EventKind,
    pub digests: Vec<Vec<u8>>,
    pub payload: Payload,
}

/// One record of the log stream: a decoded event, or a record the source
/// could not read.
pub enum LogRecord {
    Decoded { event: Event },
    Unreadable,
}

/// The device-path nodes an event carries, if any.
pub open spec fn spec_event_nodes(e: Event) -> Option<Seq<DevicePathNode>> {
    match e.payload {
        Payload::ImageLoad { device_path } => match device_path {
            Option::Some(nodes) => Option::Some(nodes@),
            Option::None => Option::None,
        },
        _ => Option::None,
    }
}

/// The partition UUID resolved from the event's device path.
pub open spec fn spec_event_uuid(e: Event) -> Option<u128> {
    match spec_event_nodes(e) {
        Option::Some(nodes) => spec_traverse_uuid(nodes),
        Option::None => Option::None,
    }
}

/// The native file path resolved from the event's device path.
pub open spec fn spec_event_path(e: Event) -> Option<Seq<char>> {
    match spec_event_nodes(e) {
        Option::Some(nodes) => spec_traverse_path(nodes),
        Option::None => Option::None,
    }
}

/// Recomputation is attempted exactly for boot-services-application
/// loads whose payload carries a device path that resolves to a file path.
pub open spec fn spec_wants_recompute(e: Event) -> bool {
    e.kind == EventKind::BootServicesApplication && spec_event_path(e) is Some
}

/// The event's GUID-signed partition nodes carry their sixteen bytes.
pub open spec fn event_wf(e: Event) -> bool {
    match spec_event_nodes(e) {
        Option::Some(nodes) => guid_nodes_wf(nodes),
        Option::None => true,
    }
}

/// Well-formedness of a whole record stream.
pub open spec fn records_wf(records: Seq<LogRecord>) -> bool {
    forall|i: int| 0 <= i < records.len() ==> match #[trigger] records[i] {
        LogRecord::Decoded { event } => event_wf(event),
        LogRecord::Unreadable => true,
    }
}

/// What the walker decides to do with one record.
pub enum EventDecision {
    /// The record could not be read from the source.
    SkipUnreadable,
    /// The event is on a register other than the boot-loader one.
    SkipWrongRegister,
    /// The event carries no digest at all.
    SkipNoDigest,
    /// Fold the event's first recorded digest.
    UseRecorded { recorded: Vec<u8> },
    /// Attempt recomputation; fall back to the recorded digest on failure.
    Recompute { uuid: Option<u128>, native_path: String, recorded: Vec<u8> },
}

/// An exact byte copy of a digest.
fn copy_bytes(v: &Vec<u8>) -> (r: Vec<u8>)
    ensures
        r@ == v@,
{
    let mut r: Vec<u8> = Vec::new();
    let mut i: usize = 0;
    while i < v.len()
        invariant
            i <= v@.len(),
            r@ == v@.take(i as int),
        decreases v@.len() - i,
    {
        r.push(v[i]);
        proof {
            assert(v@.take(i as int).push(v@[i as int]) =~= v@.take(i + 1));
        }
        i = i + 1;
    }
    proof {
        assert(v@.take(v@.len() as int) =~= v@);
    }
    r
}

/// Decide what to do with one record: skip it, fold its recorded digest,
/// or attempt recomputation with the resolved partition UUID and native
/// path.
pub fn classify_event(record: &LogRecord) -> (r: EventDecision)
    requires
        record matches LogRecord::Decoded { event } ==> event_wf(*event),
    ensures
        match record {
            LogRecord::Unreadable => r is SkipUnreadable,
            LogRecord::Decoded { event } => {
                if event.pcr_index != BOOT_LOADER_PCR {
                    r is SkipWrongRegister
                } else if event.digests@.len() == 0 {
                    r is SkipNoDigest
                } else if spec_wants_recompute(*event) {
                    r matches EventDecision::Recompute { uuid, native_path, recorded }
                        && uuid == spec_event_uuid(*event)
                        && spec_event_path(*event) == Option::Some(native_path@)
                        && recorded@ == event.digests@[0]@
                } else {
                    r matches EventDecision::UseRecorded { recorded }
                        && recorded@ == event.digests@[0]@
                }
            },
        },
{
    match record {
        LogRecord::Unreadable => EventDecision::SkipUnreadable,
        LogRecord::Decoded { event } => {
            if event.pcr_index != BOOT_LOADER_PCR {
                return EventDecision::SkipWrongRegister;
            }
            if event.digests.len() == 0 {
                return EventDecision::SkipNoDigest;
            }
            let recorded = copy_bytes(&event.digests[0]);
            match (&event.kind, &event.payload) {
                (EventKind::BootServicesApplication, Payload::ImageLoad {
                    device_path: Some(nodes),
                }) => {
                    let (uuid, path) = traverse_device_path(nodes);
                    match path {
                        Some(native_path) => EventDecision::Recompute {
                            uuid,
                            native_path,
                            recorded,
                        },
                        None => EventDecision::UseRecorded { recorded },
                    }
                },
                _ => EventDecision::UseRecorded { recorded },
            }
        },
    }
}

/// The environment a replay consults: the canonical device node of each
/// by-partition-UUID symlink, the live mount table, and the readable
/// files with their contents.
pub struct Environment {
    pub device_links: Vec<(String, String)>,
    pub mounts: Vec<MountEntry>,
    pub files: Vec<(String, Vec<u8>)>,
}

/// The canonical device the first matching symlink resolves to, if any.
pub open spec fn spec_lookup_link(links: Seq<(String, String)>, key: Seq<char>) -> Option<
    Seq<char>,
>
    decreases links.len(),
{
    if links.len() == 0 {
        Option::None
    } else if links[0].0@ == key {
        Option::Some(links[0].1@)
    } else {
        spec_lookup_link(links.skip(1), key)
    }
}

/// The contents of the first file entry under the given path, if any.
pub open spec fn spec_lookup_file(files: Seq<(String, Vec<u8>)>, key: Seq<char>) -> Option<Seq<u8>>
    decreases files.len(),
{
    if files.len() == 0 {
        Option::None
    } else if files[0].0@ == key {
        Option::Some(files[0].1@)
    } else {
        spec_lookup_file(files.skip(1), key)
    }
}

/// Resolve a symlink in the environment.
pub fn lookup_link(links: &Vec<(String, String)>, key: &String) -> (r: Option<String>)
    ensures
        match spec_lookup_link(links@, key@) {
            Option::Some(d) => r matches Some(s) && s@ == d,
            Option::None => r is None,
        },
{
    let mut i: usize = 0;
    proof {
        assert(links@.skip(0) =~= links@);
    }
    while i < links.len()
        invariant
            i <= links@.len(),
            spec_lookup_link(links@, key@) == spec_lookup_link(links@.skip(i as int), key@),
        decreases links@.len() - i,
    {
        proof {
            assert(links@.skip(i as int)[0] == links@[i as int]);
            assert(links@.skip(i as int).skip(1) =~= links@.skip(i + 1));
        }
        if links[i].0 == *key {
            return Some(links[i].1.clone());
        }
        i = i + 1;
    }
    None
}

/// Read a file's contents from the environment.
pub fn lookup_file(files: &Vec<(String, Vec<u8>)>, key: &String) -> (r: Option<Vec<u8>>)
    ensures
        match spec_lookup_file(files@, key@) {
            Option::Some(b) => r matches Some(v) && v@ == b,
            Option::None => r is None,
        },
{
    let mut i: usize = 0;
    proof {
        assert(files@.skip(0) =~= files@);
    }
    while i < files.len()
        invariant
            i <= files@.len(),
            spec_lookup_file(files@, key@) == spec_lookup_file(files@.skip(i as int), key@),
        decreases files@.len() - i,
    {
        proof {
            assert(files@.skip(i as int)[0] == files@[i as int]);
            assert(files@.skip(i as int).skip(1) =~= files@.skip(i + 1));
        }
        if files[i].0 == *key {
            return Some(copy_bytes(&files[i].1));
        }
        i = i + 1;
    }
    None
}

/// The view of an optional string.
pub open spec fn spec_opt_str(o: Option<String>) -> Option<Seq<char>> {
    match o {
        Option::Some(s) => Option::Some(s@),
        Option::None => Option::None,
    }
}

/// The view of optional file contents.
pub open spec fn spec_opt_bytes(o: Option<Vec<u8>>) -> Option<Seq<u8>> {
    match o {
        Option::Some(v) => Option::Some(v@),
        Option::None => Option::None,
    }
}

/// The root the translator anchors at, given the canonical device the
/// UUID resolved to (if it resolved at all) and the mount table.
pub open spec fn spec_root_of(canonical_dev: Option<Seq<char>>, mounts: Seq<MountEntry>) -> Seq<
    char,
> {
    spec_effective_root(
        match canonical_dev {
            Option::Some(d) => spec_find_mount(mounts, d),
            Option::None => Option::None,
        },
    )
}

/// The path finally measured for an event: the translated candidate, or
/// the first matching override rule's replacement.
pub open spec fn spec_candidate_path(
    native: Seq<char>,
    canonical_dev: Option<Seq<char>>,
    mounts: Seq<MountEntry>,
    rules: Seq<DropIn>,
    recorded: Seq<u8>,
) -> Seq<char> {
    let full = spec_translate(native, spec_root_of(canonical_dev, mounts));
    match spec_find_drop_in(rules, full, recorded) {
        Option::Some(p) => p,
        Option::None => full,
    }
}

/// Resolve the file to measure for a recomputation candidate: pick the
/// mount root (falling back to the conventional location), translate the
/// native path onto it, and apply the override table.
pub fn resolve_candidate(
    native_path: &String,
    canonical_dev: &Option<String>,
    mounts: &Vec<MountEntry>,
    rules: &Option<DropIns>,
    recorded: &Vec<u8>,
) -> (r: String)
    ensures
        r@ == spec_candidate_path(
            native_path@,
            spec_opt_str(*canonical_dev),
            mounts@,
            rules.spec_rules(),
            recorded@,
        ),
{
    let mount_dir = match canonical_dev {
        Some(d) => find_mount_dir(mounts, d),
        None => None,
    };
    let root = effective_root(mount_dir);
    let full = translate_path(native_path.as_str(), &root);
    match rules.find_drop_in(&full, recorded) {
        Some(p) => p,
        None => full,
    }
}

/// The digest an event folds when recomputation was attempted: the
/// Authenticode digest of the file's contents when they could be read
/// and measured, the recorded digest otherwise.
pub open spec fn spec_chosen_digest(
    contents: Option<Seq<u8>>,
    bits: Bits,
    alg: crate::hash::Hash,
    recorded: Seq<u8>,
) -> Seq<u8> {
    match contents {
        Option::Some(data) => match spec_measure_pe(data, bits, alg) {
            Option::Some(d) => d,
            Option::None => recorded,
        },
        Option::None => recorded,
    }
}

/// Measure the candidate file, falling back to the recorded digest on
/// any measurement failure.
pub fn measure_candidate(
    contents: &Option<Vec<u8>>,
    bits: Bits,
    alg: crate::hash::Hash,
    recorded: &Vec<u8>,
) -> (r: Vec<u8>)
    ensures
        r@ == spec_chosen_digest(spec_opt_bytes(*contents), bits, alg, recorded@),
{
    match measure_file(contents, bits, alg) {
        Ok(d) => d,
        Err(_) => copy_bytes(recorded),
    }
}

/// The digest one record folds into the register, or nothing when the
/// record is skipped.
pub open spec fn spec_record_digest(
    r: LogRecord,
    links: Seq<(String, String)>,
    mounts: Seq<MountEntry>,
    files: Seq<(String, Vec<u8>)>,
    rules: Seq<DropIn>,
    bits: Bits,
    alg: crate::hash::Hash,
) -> Option<Seq<u8>> {
    match r {
        LogRecord::Unreadable => Option::None,
        LogRecord::Decoded { event } => {
            if event.pcr_index != BOOT_LOADER_PCR {
                Option::None
            } else if event.digests@.len() == 0 {
                Option::None
            } else {
                let recorded = event.digests@[0]@;
                if spec_wants_recompute(event) {
                    let native = match spec_event_path(event) {
                        Option::Some(p) => p,
                        Option::None => Seq::empty(),
                    };
                    let canon = match spec_event_uuid(event) {
                        Option::Some(id) => spec_lookup_link(links, spec_partuuid_symlink(id)),
                        Option::None => Option::None,
                    };
                    let cand = spec_candidate_path(native, canon, mounts, rules, recorded);
                    Option::Some(
                        spec_chosen_digest(spec_lookup_file(files, cand), bits, alg, recorded),
                    )
                } else {
                    Option::Some(recorded)
                }
            }
        },
    }
}

/// Fold one record's digest into the register state: extend for a folded
/// digest, no change for a skipped record.
pub open spec fn spec_fold_digest(alg: crate::hash::Hash, state: Seq<u8>, d: Option<Seq<u8>>) -> Seq<u8> {
    match d {
        Option::Some(x) => spec_digest(alg, state + x),
        Option::None => state,
    }
}

/// The register state after replaying a record stream, in log order.
pub open spec fn spec_replay(
    records: Seq<LogRecord>,
    links: Seq<(String, String)>,
    mounts: Seq<MountEntry>,
    files: Seq<(String, Vec<u8>)>,
    rules: Seq<DropIn>,
    bits: Bits,
    alg: crate::hash::Hash,
    init: Seq<u8>,
) -> Seq<u8>
    decreases records.len(),
{
    if records.len() == 0 {
        init
    } else {
        spec_fold_digest(
            alg,
            spec_replay(records.drop_last(), links, mounts, files, rules, bits, alg, init),
            spec_record_digest(records.last(), links, mounts, files, rules, bits, alg),
        )
    }
}

/// The all-zero initial register state.
pub open spec fn spec_zeros(n: int) -> Seq<u8> {
    Seq::new(n as nat, |i: int| 0u8)
}

/// Replay a whole record stream against an environment: the final
/// register state, starting from all zeros, after every processed event
/// folded exactly one digest in log order.
pub fn replay_log(
    records: &Vec<LogRecord>,
    env: &Environment,
    rules: &Option<DropIns>,
    bits: Bits,
    alg: crate::hash::Hash,
) -> (r: Vec<u8>)
    requires
        records_wf(records@),
    ensures
        r@ == spec_replay(
            records@,
            env.device_links@,
            env.mounts@,
            env.files@,
            rules.spec_rules(),
            bits,
            alg,
            spec_zeros(spec_output_size(alg)),
        ),
        r@.len() == spec_output_size(alg),
{
    let size = Hasher::new(alg).output_size();
    let mut state: Vec<u8> = Vec::new();
    let mut z: usize = 0;
    while z < size
        invariant
            z <= size,
            size == spec_output_size(alg),
            state@ == spec_zeros(z as int),
        decreases size - z,
    {
        state.push(0u8);
        proof {
            assert(spec_zeros(z as int).push(0u8) =~= spec_zeros(z + 1));
        }
        z = z + 1;
    }
    let mut i: usize = 0;
    proof {
        assert(records@.take(0) =~= Seq::<LogRecord>::empty());
    }
    while i < records.len()
        invariant
            i <= records@.len(),
            records_wf(records@),
            state@.len() == spec_output_size(alg),
            state@ == spec_replay(
                records@.take(i as int),
                env.device_links@,
                env.mounts@,
                env.files@,
                rules.spec_rules(),
                bits,
                alg,
                spec_zeros(spec_output_size(alg)),
            ),
        decreases records@.len() - i,
    {
        proof {
            assert(records@.take(i + 1).drop_last() =~= records@.take(i as int));
            assert(records@.take(i + 1).last() == records@[i as int]);
        }
        let ghost prev = state@;
        let decision = classify_event(&records[i]);
        match decision {
            EventDecision::SkipUnreadable => {},
            EventDecision::SkipWrongRegister => {},
            EventDecision::SkipNoDigest => {},
            EventDecision::UseRecorded { recorded } => {
                state.measure(recorded.as_slice(), Hasher::new(alg));
                proof {
                    assert(Seq::<u8>::empty() + prev + recorded@ =~= prev + recorded@);
                }
            },
            EventDecision::Recompute { uuid, native_path, recorded } => {
                let canonical_dev = match uuid {
                    Some(id) => lookup_link(&env.device_links, &partuuid_symlink(id)),
                    None => None,
                };
                let cand = resolve_candidate(
                    &native_path,
                    &canonical_dev,
                    &env.mounts,
                    rules,
                    &recorded,
                );
                let contents = lookup_file(&env.files, &cand);
                let chosen = measure_candidate(&contents, bits, alg, &recorded);
                state.measure(chosen.as_slice(), Hasher::new(alg));
                proof {
                    assert(Seq::<u8>::empty() + prev + chosen@ =~= prev + chosen@);
                }
            },
        }
        i = i + 1;
    }
    proof {
        assert(records@.take(records@.len() as int) =~= records@);
    }
    state
}

/// The two-event chain: replaying a log whose two records fold the
/// digests d1 and d2 yields `Hash(Hash(Zero || d1) || d2)`.
pub proof fn lemma_two_event_chain(
    r1: LogRecord,
    r2: LogRecord,
    links: Seq<(String, String)>,
    mounts: Seq<MountEntry>,
    files: Seq<(String, Vec<u8>)>,
    rules: Seq<DropIn>,
    bits: Bits,
    alg: crate::hash::Hash,
    d1: Seq<u8>,
    d2: Seq<u8>,
)
    requires
        spec_record_digest(r1, links, mounts, files, rules, bits, alg) == Option::Some(d1),
        spec_record_digest(r2, links, mounts, files, rules, bits, alg) == Option::Some(d2),
    ensures
        spec_replay(
            seq![r1, r2],
            links,
            mounts,
            files,
            rules,
            bits,
            alg,
            spec_zeros(spec_output_size(alg)),
        ) == spec_digest(
            alg,
            spec_digest(alg, spec_zeros(spec_output_size(alg)) + d1) + d2,
        ),
{
    let init = spec_zeros(spec_output_size(alg));
    let s = seq![r1, r2];
    let s1 = seq![r1];
    assert(s.drop_last() =~= s1);
    assert(s.last() == r2);
    assert(s1.drop_last() =~= Seq::<LogRecord>::empty());
    assert(s1.last() == r1);
    assert(spec_replay(Seq::<LogRecord>::empty(), links, mounts, files, rules, bits, alg, init)
        == init);
    assert(spec_replay(s1, links, mounts, files, rules, bits, alg, init) == spec_digest(
        alg,
        init + d1,
    ));
    assert(spec_replay(s, links, mounts, files, rules, bits, alg, init) == spec_digest(
        alg,
        spec_digest(alg, init + d1) + d2,
    ));
}

/// Skip-and-continue: a log with an unreadable record inserted anywhere
/// replays to exactly the state of the log without it.
pub proof fn lemma_unreadable_record_skipped(
    records: Seq<LogRecord>,
    i: int,
    links: Seq<(String, String)>,
    mounts: Seq<MountEntry>,
    files: Seq<(String, Vec<u8>)>,
    rules: Seq<DropIn>,
    bits: Bits,
    alg: crate::hash::Hash,
    init: Seq<u8>,
)
    requires
        0 <= i <= records.len(),
    ensures
        spec_replay(
            records.insert(i, LogRecord::Unreadable),
            links,
            mounts,
            files,
            rules,
            bits,
            alg,
            init,
        ) == spec_replay(records, links, mounts, files, rules, bits, alg, init),
    decreases records.len(),
{
    let s = records.insert(i, LogRecord::Unreadable);
    if i == records.len() {
        assert(s.drop_last() =~= records);
        assert(s.last() == LogRecord::Unreadable);
    } else {
        assert(s.drop_last() =~= records.drop_last().insert(i, LogRecord::Unreadable));
        assert(s.last() == records.last());
        lemma_unreadable_record_skipped(
            records.drop_last(),
            i,
            links,
            mounts,
            files,
            rules,
            bits,
            alg,
            init,
        );
    }
}

} // verus!
