//! The PipeWire side of audio capture, as far as it is decisions on plain
//! values: which registry nodes are capture points, how they are labelled
//! and ordered for the device picker, which node a capture stream targets,
//! and the device descriptions handed to the rest of the program.
//!
//! Talking to the PipeWire daemon (the main loop, the registry walk and
//! the stream itself) is done by the application, which hands the values
//! it reads to the functions here.

use vstd::prelude::*;
use vstd::string::*;
use vstd::utf8::*;
use crate::audio_device::{AudioDeviceError, AudioDeviceInfo, AudioDeviceInfoView};
use crate::text::{concat, ends_with_text, has_suffix, same_text};

verus! {

broadcast use vstd::string::group_string_axioms;

/// Identifier of the virtual device that follows the current default
/// output's monitor. Any other identifier is a PipeWire `node.name`.
pub const DEFAULT_DEVICE_ID: &'static str = "Default";

/// Sample rate requested from PipeWire before negotiation (Hz).
pub const DEFAULT_RATE: u32 = 48000;

/// Channel count requested from PipeWire before negotiation.
pub const DEFAULT_CHANNELS: u32 = 2;

/// Which kind of PipeWire source a `PipewireSource` refers to.
#[derive(Clone, Copy, Debug, PartialEq, Eq, Structural)]
pub enum SourceType {
    /// The monitor side of an output: captures what is playing on it.
    Monitor,
    /// A physical or virtual input (microphone, line-in, ...).
    Input,
}

/// One capture point as read from the PipeWire registry.
#[derive(Clone, Debug)]
pub struct PipewireSource {
    /// Stable node name; used as device id and as capture target.
    pub node_name: String,
    /// Human-readable description, or the node name when there is none.
    pub description: String,
    /// Whether the source is an output monitor or an input.
    pub source_type: SourceType,
}

/// The label that the device picker shows for a source.
pub open spec fn source_label(s: PipewireSource) -> Seq<char> {
    s.description@ + " ("@ + (match s.source_type {
        SourceType::Monitor => "Output Monitor"@,
        SourceType::Input => "Input"@,
    }) + ")"@
}

impl PipewireSource {
    /// User-facing label: the description, tagged as output monitor or
    /// input.
    pub fn display_name(&self) -> (r: String)
        ensures
            r@ == source_label(*self),
    {
        let tag = match self.source_type {
            SourceType::Monitor => "Output Monitor",
            SourceType::Input => "Input",
        };
        let s = concat(self.description.as_str(), " (");
        let s = concat(s.as_str(), tag);
        concat(s.as_str(), ")")
    }
}

// =====================================================================
// Device descriptions
// =====================================================================

/// The description of a capture device that is known only by its id,
/// with the format requested from PipeWire.
pub open spec fn requested_format_device(
    id: Seq<char>,
    name: Seq<char>,
    is_default: bool,
) -> AudioDeviceInfoView {
    AudioDeviceInfoView {
        id,
        name,
        sample_rates: seq![DEFAULT_RATE],
        default_sample_rate: DEFAULT_RATE,
        channels: DEFAULT_CHANNELS as u16,
        is_default,
    }
}

fn requested_format_info(id: String, name: String, is_default: bool) -> (d: AudioDeviceInfo)
    ensures
        d@ == requested_format_device(id@, name@, is_default),
{
    let rates: Vec<u32> = vec![DEFAULT_RATE];
    let d = AudioDeviceInfo {
        id,
        name,
        sample_rates: rates,
        default_sample_rate: DEFAULT_RATE,
        channels: 2u16,
        is_default,
    };
    assert(d@.sample_rates =~= seq![DEFAULT_RATE]);
    d
}

/// The "System Audio" device that follows the default output's monitor.
pub fn default_device_info() -> (d: AudioDeviceInfo)
    ensures
        d@ == requested_format_device(
            DEFAULT_DEVICE_ID@,
            "System Audio (Default Output)"@,
            true,
        ),
{
    requested_format_info(
        DEFAULT_DEVICE_ID.to_owned(),
        "System Audio (Default Output)".to_owned(),
        true,
    )
}

/// A placeholder description for a node known only by its name: the
/// name doubles as the label.
pub fn synthetic_info_for_id(device_id: &str) -> (d: AudioDeviceInfo)
    ensures
        d@ == requested_format_device(device_id@, device_id@, false),
{
    requested_format_info(device_id.to_owned(), device_id.to_owned(), false)
}

/// The device description of a discovered source: its node name is the
/// id and its picker label the name.
pub open spec fn source_device(s: PipewireSource) -> AudioDeviceInfoView {
    requested_format_device(s.node_name@, source_label(s), false)
}

/// Converts a discovered source into the device description that the
/// picker shows.
pub fn source_to_device_info(source: PipewireSource) -> (d: AudioDeviceInfo)
    ensures
        d@ == source_device(source),
{
    let name = source.display_name();
    requested_format_info(source.node_name, name, false)
}

/// Whether a device id selects the virtual default device.
pub fn is_default_selection(device_id: &str) -> (r: bool)
    ensures
        r == (device_id@ == DEFAULT_DEVICE_ID@),
{
    same_text(device_id, DEFAULT_DEVICE_ID)
}

/// The description used for a selected device id before capture starts:
/// the default device for the default id, a placeholder otherwise.
pub fn device_info_for_selection(device_id: &str) -> (d: AudioDeviceInfo)
    ensures
        d@.id == device_id@,
        device_id@ == DEFAULT_DEVICE_ID@ ==> d@ == requested_format_device(
            DEFAULT_DEVICE_ID@,
            "System Audio (Default Output)"@,
            true,
        ),
        device_id@ != DEFAULT_DEVICE_ID@ ==> d@ == requested_format_device(
            device_id@,
            device_id@,
            false,
        ),
{
    if is_default_selection(device_id) {
        default_device_info()
    } else {
        synthetic_info_for_id(device_id)
    }
}

/// A device description with the rate and channel count that the stream
/// actually negotiated (the channel count kept to its low 16 bits).
pub fn with_negotiated_format(info: AudioDeviceInfo, sample_rate: u32, channels: u32) -> (d:
    AudioDeviceInfo)
    ensures
        d@ == (AudioDeviceInfoView {
            default_sample_rate: sample_rate,
            channels: channels as u16,
            ..info@
        }),
{
    let mut d = info;
    d.default_sample_rate = sample_rate;
    d.channels = #[verifier::truncate] (channels as u16);
    d
}

// =====================================================================
// Registry nodes
// =====================================================================

/// The capture point that a registry global stands for, if any: an
/// `Audio/Source` node is a monitor when its name ends in ".monitor" and
/// an input otherwise; an `Audio/Sink` node stands for its own monitor.
/// Globals that are not nodes, or lack a media class or a node name, are
/// no capture point. The description defaults to the node name.
pub open spec fn node_source(
    is_node: bool,
    media_class: Option<Seq<char>>,
    node_name: Option<Seq<char>>,
    description: Option<Seq<char>>,
) -> Option<(Seq<char>, Seq<char>, SourceType)> {
    if !is_node {
        None
    } else {
        match (media_class, node_name) {
            (Some(class), Some(name)) => {
                let desc = match description {
                    Some(d) => d,
                    None => name,
                };
                if class == "Audio/Source"@ {
                    Some(
                        (
                            name,
                            desc,
                            if has_suffix(name, ".monitor"@) {
                                SourceType::Monitor
                            } else {
                                SourceType::Input
                            },
                        ),
                    )
                } else if class == "Audio/Sink"@ {
                    Some((name, desc, SourceType::Monitor))
                } else {
                    None
                }
            },
            _ => None,
        }
    }
}

/// The plain content of a source.
pub open spec fn source_parts(s: PipewireSource) -> (Seq<char>, Seq<char>, SourceType) {
    (s.node_name@, s.description@, s.source_type)
}

/// The view of an optional string slice.
pub open spec fn opt_text(o: Option<&str>) -> Option<Seq<char>> {
    match o {
        Some(s) => Some(s@),
        None => None,
    }
}

/// The capture point for one registry global, from the global's type
/// and its `media.class`, `node.name` and `node.description` properties.
pub fn source_from_node(
    is_node: bool,
    media_class: Option<&str>,
    node_name: Option<&str>,
    description: Option<&str>,
) -> (r: Option<PipewireSource>)
    ensures
        match r {
            Some(s) => node_source(
                is_node,
                opt_text(media_class),
                opt_text(node_name),
                opt_text(description),
            ) == Some(source_parts(s)),
            None => node_source(
                is_node,
                opt_text(media_class),
                opt_text(node_name),
                opt_text(description),
            ) is None,
        },
{
    if !is_node {
        return None;
    }
    let (class, name) = match (media_class, node_name) {
        (Some(c), Some(n)) => (c, n),
        _ => {
            return None;
        },
    };
    let desc = match description {
        Some(d) => d.to_owned(),
        None => name.to_owned(),
    };
    if same_text(class, "Audio/Source") {
        let source_type = if ends_with_text(name, ".monitor") {
            SourceType::Monitor
        } else {
            SourceType::Input
        };
        Some(PipewireSource { node_name: name.to_owned(), description: desc, source_type })
    } else if same_text(class, "Audio/Sink") {
        Some(
            PipewireSource {
                node_name: name.to_owned(),
                description: desc,
                source_type: SourceType::Monitor,
            },
        )
    } else {
        None
    }
}

// =====================================================================
// Picker order
// =====================================================================

/// Lexicographic order of byte strings, the order in which `str` values
/// compare.
pub open spec fn bytes_less(a: Seq<u8>, b: Seq<u8>) -> bool
    decreases a.len(),
{
    if b.len() == 0 {
        false
    } else if a.len() == 0 {
        true
    } else if a[0] != b[0] {
        a[0] < b[0]
    } else {
        bytes_less(a.drop_first(), b.drop_first())
    }
}

/// Whether source `a` is listed before source `b` in the device picker:
/// output monitors before inputs, and sources of one kind by description.
pub open spec fn source_precedes(a: PipewireSource, b: PipewireSource) -> bool {
    ||| (a.source_type == SourceType::Monitor && b.source_type == SourceType::Input)
    ||| (a.source_type == b.source_type && bytes_less(
        encode_utf8(a.description@),
        encode_utf8(b.description@),
    ))
}

/// Where a source is inserted into a list in picker order: before the
/// first source that it precedes, after all others.
pub open spec fn insert_position(s: Seq<PipewireSource>, x: PipewireSource) -> int
    decreases s.len(),
{
    if s.len() == 0 {
        0
    } else if source_precedes(x, s[0]) {
        0
    } else {
        1 + insert_position(s.drop_first(), x)
    }
}

/// The sources in picker order: each inserted, in discovery order, after
/// every source already placed that it does not precede (so sources that
/// compare equal keep their discovery order).
pub open spec fn sorted_sources(s: Seq<PipewireSource>) -> Seq<PipewireSource>
    decreases s.len(),
{
    if s.len() == 0 {
        s
    } else {
        let rest = sorted_sources(s.drop_last());
        rest.insert(insert_position(rest, s.last()), s.last())
    }
}

/// Whether no source of the list comes after a source that it precedes.
pub open spec fn sources_in_order(s: Seq<PipewireSource>) -> bool {
    forall|i: int, j: int|
        0 <= i < j < s.len() ==> !source_precedes(#[trigger] s[j], #[trigger] s[i])
}

proof fn lemma_bytes_less_asymmetric(a: Seq<u8>, b: Seq<u8>)
    ensures
        bytes_less(a, b) ==> !bytes_less(b, a),
    decreases a.len(),
{
    if a.len() > 0 && b.len() > 0 && a[0] == b[0] {
        lemma_bytes_less_asymmetric(a.drop_first(), b.drop_first());
    }
}

proof fn lemma_bytes_less_transitive(a: Seq<u8>, b: Seq<u8>, c: Seq<u8>)
    requires
        bytes_less(a, b),
        bytes_less(b, c),
    ensures
        bytes_less(a, c),
    decreases a.len(),
{
    if a.len() > 0 && a[0] == b[0] && b[0] == c[0] {
        lemma_bytes_less_transitive(a.drop_first(), b.drop_first(), c.drop_first());
    }
}

proof fn lemma_precedes_asymmetric(a: PipewireSource, b: PipewireSource)
    ensures
        source_precedes(a, b) ==> !source_precedes(b, a),
{
    lemma_bytes_less_asymmetric(encode_utf8(a.description@), encode_utf8(b.description@));
}

proof fn lemma_precedes_transitive(a: PipewireSource, b: PipewireSource, c: PipewireSource)
    requires
        source_precedes(a, b),
        source_precedes(b, c),
    ensures
        source_precedes(a, c),
{
    if a.source_type == b.source_type && b.source_type == c.source_type {
        lemma_bytes_less_transitive(
            encode_utf8(a.description@),
            encode_utf8(b.description@),
            encode_utf8(c.description@),
        );
    }
}

proof fn lemma_insert_position_facts(s: Seq<PipewireSource>, x: PipewireSource)
    ensures
        0 <= insert_position(s, x) <= s.len(),
        forall|i: int| 0 <= i < insert_position(s, x) ==> !source_precedes(x, #[trigger] s[i]),
        insert_position(s, x) < s.len() ==> source_precedes(x, s[insert_position(s, x)]),
    decreases s.len(),
{
    if s.len() > 0 && !source_precedes(x, s[0]) {
        lemma_insert_position_facts(s.drop_first(), x);
        assert forall|i: int| 0 <= i < insert_position(s, x) implies !source_precedes(
            x,
            #[trigger] s[i],
        ) by {
            if i > 0 {
                assert(s[i] == s.drop_first()[i - 1]);
            }
        }
    }
}

proof fn lemma_insert_position_is(s: Seq<PipewireSource>, x: PipewireSource, k: int)
    requires
        0 <= k <= s.len(),
        forall|i: int| 0 <= i < k ==> !source_precedes(x, #[trigger] s[i]),
        k < s.len() ==> source_precedes(x, s[k]),
    ensures
        insert_position(s, x) == k,
    decreases s.len(),
{
    if s.len() > 0 && k > 0 {
        assert(!source_precedes(x, s[0]));
        assert forall|i: int| 0 <= i < k - 1 implies !source_precedes(
            x,
            #[trigger] s.drop_first()[i],
        ) by {
            assert(s.drop_first()[i] == s[i + 1]);
        }
        if k < s.len() {
            assert(s.drop_first()[k - 1] == s[k]);
        }
        lemma_insert_position_is(s.drop_first(), x, k - 1);
    }
}

proof fn lemma_insert_keeps_order(s: Seq<PipewireSource>, x: PipewireSource)
    requires
        sources_in_order(s),
    ensures
        sources_in_order(s.insert(insert_position(s, x), x)),
{
    lemma_insert_position_facts(s, x);
    let p = insert_position(s, x);
    let r = s.insert(p, x);
    s.insert_ensures(p, x);
    assert forall|i: int, j: int| 0 <= i < j < r.len() implies !source_precedes(
        #[trigger] r[j],
        #[trigger] r[i],
    ) by {
        if j < p {
            assert(r[i] == s[i] && r[j] == s[j]);
        } else if j == p {
            assert(r[i] == s[i]);
        } else if i < p {
            assert(r[i] == s[i] && r[j] == s[j - 1]);
        } else if i == p {
            assert(r[j] == s[j - 1]);
            lemma_precedes_asymmetric(s[p], x);
            if source_precedes(s[j - 1], x) && j - 1 > p {
                lemma_precedes_transitive(s[j - 1], x, s[p]);
            }
        } else {
            assert(r[i] == s[i - 1] && r[j] == s[j - 1]);
        }
    }
}

/// The picker order lists every discovered source exactly as often as it
/// was discovered, and nothing else.
pub proof fn lemma_sorted_sources_permutes(s: Seq<PipewireSource>)
    ensures
        sorted_sources(s).to_multiset() == s.to_multiset(),
        sorted_sources(s).len() == s.len(),
    decreases s.len(),
{
    broadcast use vstd::seq_lib::group_to_multiset_ensures;

    if s.len() > 0 {
        let rest = sorted_sources(s.drop_last());
        lemma_sorted_sources_permutes(s.drop_last());
        lemma_insert_position_facts(rest, s.last());
        assert(s == s.drop_last().push(s.last()));
        assert(sorted_sources(s).to_multiset() == rest.to_multiset().insert(s.last()));
    }
}

/// In picker order every output monitor comes before every input, and
/// sources of one kind are in byte order of their descriptions.
pub proof fn lemma_sorted_sources_ordered(s: Seq<PipewireSource>)
    ensures
        sources_in_order(sorted_sources(s)),
        forall|i: int, j: int|
            0 <= i < j < sorted_sources(s).len() && (#[trigger] sorted_sources(s)[i]).source_type
                == SourceType::Input ==> (#[trigger] sorted_sources(s)[j]).source_type
                == SourceType::Input,
        forall|i: int, j: int|
            0 <= i < j < sorted_sources(s).len() && (#[trigger] sorted_sources(s)[i]).source_type
                == (#[trigger] sorted_sources(s)[j]).source_type ==> !bytes_less(
                encode_utf8(sorted_sources(s)[j].description@),
                encode_utf8(sorted_sources(s)[i].description@),
            ),
    decreases s.len(),
{
    if s.len() > 0 {
        lemma_sorted_sources_ordered(s.drop_last());
        lemma_insert_keeps_order(sorted_sources(s.drop_last()), s.last());
    }
    let r = sorted_sources(s);
    assert forall|i: int, j: int|
        0 <= i < j < r.len() && (#[trigger] r[i]).source_type == SourceType::Input implies (
        #[trigger] r[j]).source_type == SourceType::Input by {
        assert(!source_precedes(r[j], r[i]));
    }
    assert forall|i: int, j: int|
        0 <= i < j < r.len() && (#[trigger] r[i]).source_type
            == (#[trigger] r[j]).source_type implies !bytes_less(
        encode_utf8(r[j].description@),
        encode_utf8(r[i].description@),
    ) by {
        assert(!source_precedes(r[j], r[i]));
    }
}

/// A list already in picker order is left as it is.
pub proof fn lemma_sorted_sources_keeps_ordered(t: Seq<PipewireSource>)
    requires
        sources_in_order(t),
    ensures
        sorted_sources(t) == t,
    decreases t.len(),
{
    if t.len() > 0 {
        let d = t.drop_last();
        let x = t.last();
        assert forall|i: int, j: int| 0 <= i < j < d.len() implies !source_precedes(
            #[trigger] d[j],
            #[trigger] d[i],
        ) by {
            assert(d[i] == t[i] && d[j] == t[j]);
        }
        lemma_sorted_sources_keeps_ordered(d);
        assert forall|i: int| 0 <= i < d.len() implies !source_precedes(x, #[trigger] d[i]) by {
            assert(d[i] == t[i]);
            assert(x == t[t.len() - 1]);
        }
        lemma_insert_position_is(d, x, d.len() as int);
        assert(d.insert(d.len() as int, x) =~= t);
    }
}

/// Sorting into picker order twice gives the same list as sorting once.
pub proof fn lemma_sorted_sources_idempotent(s: Seq<PipewireSource>)
    ensures
        sorted_sources(sorted_sources(s)) == sorted_sources(s),
{
    lemma_sorted_sources_ordered(s);
    lemma_sorted_sources_keeps_ordered(sorted_sources(s));
}

/// Whether two sources rank equally in picker order: the same kind and
/// the same description bytes, so that neither precedes the other.
pub open spec fn same_rank(a: PipewireSource, b: PipewireSource) -> bool {
    a.source_type == b.source_type && encode_utf8(a.description@) == encode_utf8(b.description@)
}

/// The test for ranking like `k`.
pub open spec fn ranks_like(k: PipewireSource) -> spec_fn(PipewireSource) -> bool {
    |e: PipewireSource| same_rank(e, k)
}

proof fn lemma_filter_none(s: Seq<PipewireSource>, f: spec_fn(PipewireSource) -> bool)
    requires
        forall|i: int| 0 <= i < s.len() ==> !f(#[trigger] s[i]),
    ensures
        s.filter(f) == Seq::<PipewireSource>::empty(),
    decreases s.len(),
{
    reveal(Seq::filter);
    if s.len() > 0 {
        assert forall|i: int| 0 <= i < s.drop_last().len() implies !f(#[trigger] s.drop_last()[i]) by {
            assert(s.drop_last()[i] == s[i]);
        }
        lemma_filter_none(s.drop_last(), f);
        assert(!f(s[s.len() - 1]));
    }
}

proof fn lemma_equal_ranks_before_insert_position(
    rest: Seq<PipewireSource>,
    x: PipewireSource,
    k: PipewireSource,
)
    requires
        sources_in_order(rest),
        same_rank(x, k),
    ensures
        forall|j: int|
            insert_position(rest, x) <= j < rest.len() ==> !same_rank(#[trigger] rest[j], k),
{
    lemma_insert_position_facts(rest, x);
    let p = insert_position(rest, x);
    assert forall|j: int| p <= j < rest.len() implies !same_rank(#[trigger] rest[j], k) by {
        if same_rank(rest[j], k) {
            assert(source_precedes(x, rest[p]));
            assert(source_precedes(rest[j], rest[p]));
            if j == p {
                lemma_precedes_asymmetric(rest[p], rest[p]);
            }
        }
    }
}

/// Sources that rank equally keep their discovery order: for every source
/// `k`, the sources ranking like `k` come in picker order in the order in
/// which they were discovered.
pub proof fn lemma_sorted_sources_stable(s: Seq<PipewireSource>, k: PipewireSource)
    ensures
        sorted_sources(s).filter(ranks_like(k)) == s.filter(ranks_like(k)),
    decreases s.len(),
{
    let f = ranks_like(k);
    if s.len() > 0 {
        let x = s.last();
        let rest = sorted_sources(s.drop_last());
        lemma_sorted_sources_stable(s.drop_last(), k);
        lemma_sorted_sources_ordered(s.drop_last());
        lemma_insert_position_facts(rest, x);
        let p = insert_position(rest, x);
        let a = rest.subrange(0, p);
        let b = rest.subrange(p, rest.len() as int);
        assert(rest =~= a + b);
        assert(rest.insert(p, x) =~= a.push(x) + b);
        Seq::filter_distributes_over_add(a, b, f);
        Seq::filter_distributes_over_add(a.push(x), b, f);
        reveal(Seq::filter);
        assert(a.push(x).drop_last() =~= a);
        assert(s.drop_last().push(x) =~= s);
        if f(x) {
            lemma_equal_ranks_before_insert_position(rest, x, k);
            assert forall|i: int| 0 <= i < b.len() implies !f(#[trigger] b[i]) by {
                assert(b[i] == rest[p + i]);
            }
            lemma_filter_none(b, f);
            assert(a.filter(f).push(x) + Seq::<PipewireSource>::empty() =~= a.filter(f).push(x));
            assert(a.filter(f) + Seq::<PipewireSource>::empty() =~= a.filter(f));
        }
    }
}

fn bytes_less_exec(a: &[u8], b: &[u8]) -> (r: bool)
    ensures
        r == bytes_less(a@, b@),
{
    let mut i: usize = 0;
    proof {
        assert(a@.skip(0) =~= a@);
        assert(b@.skip(0) =~= b@);
    }
    loop
        invariant
            i <= a@.len(),
            i <= b@.len(),
            bytes_less(a@, b@) == bytes_less(a@.skip(i as int), b@.skip(i as int)),
        decreases a@.len() - i,
    {
        if i == b.len() {
            return false;
        }
        if i == a.len() {
            return true;
        }
        if a[i] != b[i] {
            return a[i] < b[i];
        }
        proof {
            assert(a@.skip(i as int).drop_first() =~= a@.skip(i + 1));
            assert(b@.skip(i as int).drop_first() =~= b@.skip(i + 1));
        }
        i = i + 1;
    }
}

fn precedes(a: &PipewireSource, b: &PipewireSource) -> (r: bool)
    ensures
        r == source_precedes(*a, *b),
{
    match (a.source_type, b.source_type) {
        (SourceType::Monitor, SourceType::Input) => true,
        (SourceType::Input, SourceType::Monitor) => false,
        _ => bytes_less_exec(a.description.as_str().as_bytes(), b.description.as_str().as_bytes()),
    }
}

fn find_insert_position(sorted: &Vec<PipewireSource>, x: &PipewireSource) -> (p: usize)
    ensures
        p == insert_position(sorted@, *x),
        p <= sorted@.len(),
{
    proof {
        lemma_insert_position_facts(sorted@, *x);
    }
    let mut i: usize = 0;
    while i < sorted.len()
        invariant
            i <= sorted@.len(),
            forall|j: int| 0 <= j < i ==> !source_precedes(*x, #[trigger] sorted@[j]),
        decreases sorted.len() - i,
    {
        if precedes(x, &sorted[i]) {
            proof {
                lemma_insert_position_is(sorted@, *x, i as int);
            }
            return i;
        }
        i = i + 1;
    }
    proof {
        lemma_insert_position_is(sorted@, *x, i as int);
    }
    i
}

/// Sorts discovered sources into picker order: output monitors first,
/// then inputs, each kind by description; sources that compare equal
/// keep their discovery order.
pub fn sort_sources(sources: Vec<PipewireSource>) -> (r: Vec<PipewireSource>)
    ensures
        r@ == sorted_sources(sources@),
{
    let ghost orig = sources@;
    let n: usize = sources.len();
    let mut rest = sources;
    let mut out: Vec<PipewireSource> = Vec::new();
    let mut k: usize = 0;
    while rest.len() > 0
        invariant
            n == orig.len(),
            k <= orig.len(),
            rest@ == orig.subrange(k as int, orig.len() as int),
            out@ == sorted_sources(orig.subrange(0, k as int)),
        decreases rest.len(),
    {
        let x = rest.remove(0);
        proof {
            assert(orig.subrange(0, k + 1).drop_last() =~= orig.subrange(0, k as int));
            assert(orig.subrange(0, k + 1).last() == x);
            assert(rest@ =~= orig.subrange(k + 1, orig.len() as int));
        }
        let p = find_insert_position(&out, &x);
        out.insert(p, x);
        k = k + 1;
    }
    assert(orig.subrange(0, k as int) =~= orig);
    out
}

/// The device descriptions of a list of sources, in order.
pub open spec fn source_devices(s: Seq<PipewireSource>) -> Seq<AudioDeviceInfoView> {
    s.map_values(|x: PipewireSource| source_device(x))
}

/// The device picker's list for the sources found in the registry: the
/// sources in picker order, each as a device description.
pub fn device_list(sources: Vec<PipewireSource>) -> (r: Vec<AudioDeviceInfo>)
    ensures
        crate::audio_device::device_views(r@) == source_devices(sorted_sources(sources@)),
{
    let sorted = sort_sources(sources);
    let ghost all = sorted@;
    let n: usize = sorted.len();
    let mut rest = sorted;
    let mut out: Vec<AudioDeviceInfo> = Vec::new();
    let mut k: usize = 0;
    while rest.len() > 0
        invariant
            n == all.len(),
            k <= all.len(),
            rest@ == all.subrange(k as int, all.len() as int),
            crate::audio_device::device_views(out@) == source_devices(all.subrange(0, k as int)),
        decreases rest.len(),
    {
        let x = rest.remove(0);
        proof {
            assert(x == all[k as int]);
            assert(rest@ =~= all.subrange(k + 1, all.len() as int));
        }
        let d = source_to_device_info(x);
        let ghost before = out@;
        out.push(d);
        proof {
            assert(crate::audio_device::device_views(out@) =~= crate::audio_device::device_views(
                before,
            ).push(d@));
            assert(all.subrange(0, k + 1) =~= all.subrange(0, k as int).push(all[k as int]));
            assert(source_devices(all.subrange(0, k + 1)) =~= source_devices(
                all.subrange(0, k as int),
            ).push(source_device(all[k as int])));
        }
        k = k + 1;
    }
    assert(all.subrange(0, k as int) =~= all);
    out
}

// =====================================================================
// Capture target
// =====================================================================

/// What the selected device resolves to in the live registry.
#[derive(Debug)]
pub enum ResolvedTarget {
    /// Follow the current default output's monitor.
    DefaultSink,
    /// A specific output: capture its monitor.
    SinkMonitor { node_name: String },
    /// A specific input: capture it directly.
    Source { node_name: String },
}

/// What a registry walk has learned of the target node after one more
/// global: `Some(true)` for an output, `Some(false)` for an input, and
/// what was known before for any other global.
pub open spec fn lookup_step(
    found: Option<bool>,
    is_node: bool,
    node_name: Option<Seq<char>>,
    media_class: Option<Seq<char>>,
    target: Seq<char>,
) -> Option<bool> {
    if is_node && node_name == Some(target) {
        if media_class == Some("Audio/Sink"@) {
            Some(true)
        } else if media_class == Some("Audio/Source"@) {
            Some(false)
        } else {
            found
        }
    } else {
        found
    }
}

/// One step of the registry walk that looks up the kind of the target
/// node.
pub fn registry_lookup_step(
    found: Option<bool>,
    is_node: bool,
    node_name: Option<&str>,
    media_class: Option<&str>,
    target: &str,
) -> (r: Option<bool>)
    ensures
        r == lookup_step(found, is_node, opt_text(node_name), opt_text(media_class), target@),
{
    if !is_node {
        return found;
    }
    let name = match node_name {
        Some(n) => n,
        None => {
            return found;
        },
    };
    if !same_text(name, target) {
        return found;
    }
    match media_class {
        Some(c) => {
            if same_text(c, "Audio/Sink") {
                Some(true)
            } else if same_text(c, "Audio/Source") {
                Some(false)
            } else {
                found
            }
        },
        None => found,
    }
}

/// The target for a node whose kind the registry walk found: its monitor
/// for an output, the node itself for an input, and an error naming the
/// node when the registry does not hold it.
pub fn target_from_lookup(node_name: &str, found: Option<bool>) -> (r: Result<
    ResolvedTarget,
    AudioDeviceError,
>)
    ensures
        found == Some(true) ==> (r matches Ok(ResolvedTarget::SinkMonitor { node_name: n })
            && n@ == node_name@),
        found == Some(false) ==> (r matches Ok(ResolvedTarget::Source { node_name: n }) && n@
            == node_name@),
        found is None ==> (r matches Err(AudioDeviceError::PipeWireError(m)) && m@ == "node '"@
            + node_name@ + "' not present in registry"@),
{
    match found {
        Some(true) => Ok(ResolvedTarget::SinkMonitor { node_name: node_name.to_owned() }),
        Some(false) => Ok(ResolvedTarget::Source { node_name: node_name.to_owned() }),
        None => {
            let m = concat("node '", node_name);
            Err(AudioDeviceError::PipeWireError(concat(m.as_str(), "' not present in registry")))
        },
    }
}

/// The properties that select a capture stream's target: whether it
/// captures an output's monitor, and the node it is pinned to, if any.
#[derive(Debug)]
pub struct StreamTarget {
    pub capture_sink: bool,
    pub target_object: Option<String>,
}

impl ResolvedTarget {
    /// The stream properties for this target: the default target captures
    /// the default output's monitor unpinned; an output is pinned and its
    /// monitor captured; an input is pinned and captured directly.
    pub fn stream_target(&self) -> (t: StreamTarget)
        ensures
            match self {
                ResolvedTarget::DefaultSink => t.capture_sink && t.target_object is None,
                ResolvedTarget::SinkMonitor { node_name } => t.capture_sink && (
                t.target_object matches Some(o) && o@ == node_name@),
                ResolvedTarget::Source { node_name } => !t.capture_sink && (
                t.target_object matches Some(o) && o@ == node_name@),
            },
    {
        match self {
            ResolvedTarget::DefaultSink => StreamTarget { capture_sink: true, target_object: None },
            ResolvedTarget::SinkMonitor { node_name } => StreamTarget {
                capture_sink: true,
                target_object: Some(node_name.clone()),
            },
            ResolvedTarget::Source { node_name } => StreamTarget {
                capture_sink: false,
                target_object: Some(node_name.clone()),
            },
        }
    }
}

/// The target a capture stream uses: the default output's monitor for
/// the default selection, otherwise what the registry lookup resolved,
/// falling back to the default output's monitor when it failed.
pub fn capture_target(selected: &str, resolved: Result<ResolvedTarget, AudioDeviceError>) -> (t:
    ResolvedTarget)
    ensures
        selected@ == DEFAULT_DEVICE_ID@ ==> t is DefaultSink,
        selected@ != DEFAULT_DEVICE_ID@ ==> match resolved {
            Ok(x) => t == x,
            Err(_) => t is DefaultSink,
        },
{
    if is_default_selection(selected) {
        ResolvedTarget::DefaultSink
    } else {
        match resolved {
            Ok(x) => x,
            Err(_) => ResolvedTarget::DefaultSink,
        }
    }
}

} // verus!
