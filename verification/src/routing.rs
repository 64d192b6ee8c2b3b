use vstd::prelude::*;
use vstd::utf8::encode_utf8;
use crate::midi::DeckId;
use crate::text::{bytes_contain, contains_bytes, str_equal};

verus! {

/// The part of a controller mapping that decides where a control change goes.
/// The value range of the mapping is applied by the audio side.
#[derive(Clone, Debug)]
pub struct CcMapping {
    /// Matched as a substring of the MIDI port's name.
    pub device: String,
    /// Only "cc" mappings take control changes.
    pub kind: String,
    /// 1-based MIDI channel; 0 matches any channel.
    pub channel: u8,
    pub cc: Option<u8>,
    pub param: String,
    /// 0 = Deck A, 1 = Deck B; absent means: go by the MIDI channel.
    pub deck: Option<u8>,
    /// A relative control (jog wheel) sends movement centred at 64.
    pub relative: Option<bool>,
    /// Asks for an exponential curve between the mapping's bounds.
    pub exp: Option<bool>,
}

/// A per-deck synthesis parameter.
#[derive(Clone, Copy, PartialEq, Eq, Debug, Structural)]
pub enum DeckParam {
    FilterCutoff,
    FilterResonance,
    Volume,
    OscMorph,
    EnvAttack,
    EnvDecay,
    EnvSustain,
    EnvRelease,
    LfoRate,
    LfoDepth,
}

/// A parameter shared by both decks.
#[derive(Clone, Copy, PartialEq, Eq, Debug, Structural)]
pub enum SharedParam {
    Crossfader,
    MasterVolume,
}

/// What one matching mapping does with a control change.
#[derive(Clone, Copy, PartialEq, Eq, Debug, Structural)]
pub enum CcAction {
    /// Scrub the deck's wavetable with the relative value.
    Jog { deck: DeckId },
    /// Set a shared parameter, scaled linearly between the mapping's bounds.
    Shared { param: SharedParam },
    /// Set a deck parameter; `deck_param` is `None` when the mapping names no known one.
    /// `exponential` is set when the mapping asks for the exponential curve.
    Deck { deck: DeckId, deck_param: Option<DeckParam>, exponential: bool },
}

/// A control change routed through the mapping at index `mapping`.
#[derive(Clone, Copy, PartialEq, Eq, Debug, Structural)]
pub struct Route {
    pub mapping: usize,
    pub action: CcAction,
}

/// The deck parameter that a name stands for.
pub open spec fn spec_deck_param(name: Seq<char>) -> Option<DeckParam> {
    if name == "filter_cutoff"@ {
        Some(DeckParam::FilterCutoff)
    } else if name == "filter_resonance"@ {
        Some(DeckParam::FilterResonance)
    } else if name == "volume"@ {
        Some(DeckParam::Volume)
    } else if name == "osc_morph"@ {
        Some(DeckParam::OscMorph)
    } else if name == "env_attack"@ {
        Some(DeckParam::EnvAttack)
    } else if name == "env_decay"@ {
        Some(DeckParam::EnvDecay)
    } else if name == "env_sustain"@ {
        Some(DeckParam::EnvSustain)
    } else if name == "env_release"@ {
        Some(DeckParam::EnvRelease)
    } else if name == "lfo_rate"@ {
        Some(DeckParam::LfoRate)
    } else if name == "lfo_depth"@ {
        Some(DeckParam::LfoDepth)
    } else {
        None
    }
}

/// The port's name contains the mapping's device name.
pub open spec fn device_matches(m: CcMapping, port: Seq<u8>) -> bool {
    contains_bytes(port, encode_utf8(m.device@))
}

/// A mapping on channel 0 listens to every channel; otherwise its 1-based
/// channel must be the message's 0-based channel plus one.
pub open spec fn channel_matches(m: CcMapping, channel: u8) -> bool {
    m.channel == 0 || m.channel == channel + 1
}

/// A control change on `channel`, controller `cc`, from port `port` reaches mapping `m`.
#[verifier::opaque]
pub open spec fn mapping_applies(m: CcMapping, port: Seq<u8>, channel: u8, cc: u8) -> bool {
    &&& device_matches(m, port)
    &&& channel_matches(m, channel)
    &&& m.kind@ == "cc"@
    &&& m.cc == Some(cc)
}

/// The deck of a per-deck mapping: its `deck` field wins, else MIDI channel 1
/// (the second channel) means Deck B.
pub open spec fn spec_target_deck(deck: Option<u8>, channel: u8) -> DeckId {
    match deck {
        Some(d) => if d == 1 {
            DeckId::B
        } else if d == 0 {
            DeckId::A
        } else if channel == 1 {
            DeckId::B
        } else {
            DeckId::A
        },
        None => if channel == 1 {
            DeckId::B
        } else {
            DeckId::A
        },
    }
}

/// What a matching mapping does: relative mappings scrub the jog of their deck
/// (Deck B only when asked for), the crossfader and master volume are shared,
/// everything else is a parameter of one deck.
pub open spec fn spec_action(m: CcMapping, channel: u8) -> CcAction {
    if m.relative == Some(true) {
        CcAction::Jog {
            deck: if m.deck == Some(1u8) {
                DeckId::B
            } else {
                DeckId::A
            },
        }
    } else if m.param@ == "crossfader"@ {
        CcAction::Shared { param: SharedParam::Crossfader }
    } else if m.param@ == "master_volume"@ {
        CcAction::Shared { param: SharedParam::MasterVolume }
    } else {
        CcAction::Deck {
            deck: spec_target_deck(m.deck, channel),
            deck_param: spec_deck_param(m.param@),
            exponential: m.exp == Some(true),
        }
    }
}

/// The routes of a control change through a list of mappings, in mapping order.
pub open spec fn spec_route(ms: Seq<CcMapping>, port: Seq<u8>, channel: u8, cc: u8) -> Seq<Route>
    decreases ms.len(),
{
    if ms.len() == 0 {
        Seq::empty()
    } else {
        let rest = spec_route(ms.drop_last(), port, channel, cc);
        let m = ms.last();
        if mapping_applies(m, port, channel, cc) {
            rest.push(Route { mapping: (ms.len() - 1) as usize, action: spec_action(m, channel) })
        } else {
            rest
        }
    }
}

/// The channel test adds one to the message's channel; that addition must not
/// overflow for a mapping that gets as far as the test.
pub open spec fn channel_test_fits(ms: Seq<CcMapping>, port: Seq<u8>, channel: u8) -> bool {
    channel < 255 || forall|i: int|
        0 <= i < ms.len() && device_matches(#[trigger] ms[i], port) ==> ms[i].channel == 0
}

impl DeckParam {
    /// The deck parameter named `name`, if any.
    pub fn from_name(name: &str) -> (r: Option<DeckParam>)
        ensures
            r == spec_deck_param(name@),
    {
        if str_equal(name, "filter_cutoff") {
            Some(DeckParam::FilterCutoff)
        } else if str_equal(name, "filter_resonance") {
            Some(DeckParam::FilterResonance)
        } else if str_equal(name, "volume") {
            Some(DeckParam::Volume)
        } else if str_equal(name, "osc_morph") {
            Some(DeckParam::OscMorph)
        } else if str_equal(name, "env_attack") {
            Some(DeckParam::EnvAttack)
        } else if str_equal(name, "env_decay") {
            Some(DeckParam::EnvDecay)
        } else if str_equal(name, "env_sustain") {
            Some(DeckParam::EnvSustain)
        } else if str_equal(name, "env_release") {
            Some(DeckParam::EnvRelease)
        } else if str_equal(name, "lfo_rate") {
            Some(DeckParam::LfoRate)
        } else if str_equal(name, "lfo_depth") {
            Some(DeckParam::LfoDepth)
        } else {
            None
        }
    }
}

fn target_deck(deck: Option<u8>, channel: u8) -> (d: DeckId)
    ensures
        d == spec_target_deck(deck, channel),
{
    match deck {
        Some(1) => DeckId::B,
        Some(0) => DeckId::A,
        _ => if channel == 1 {
            DeckId::B
        } else {
            DeckId::A
        },
    }
}

/// Whether a control change reaches mapping `m`.
pub fn applies(m: &CcMapping, port: &[u8], channel: u8, cc: u8) -> (r: bool)
    requires
        channel < 255 || m.channel == 0 || !device_matches(*m, port@),
    ensures
        r == mapping_applies(*m, port@, channel, cc),
{
    reveal(mapping_applies);
    if !bytes_contain(port, m.device.as_str().as_bytes()) {
        return false;
    }
    if m.channel != 0 && m.channel != channel + 1 {
        return false;
    }
    if !str_equal(m.kind.as_str(), "cc") {
        return false;
    }
    match m.cc {
        Some(c) => c == cc,
        None => false,
    }
}

/// What a matching mapping does with a control change on `channel`.
pub fn action_for(m: &CcMapping, channel: u8) -> (a: CcAction)
    ensures
        a == spec_action(*m, channel),
{
    if m.relative == Some(true) {
        let deck = if m.deck == Some(1u8) {
            DeckId::B
        } else {
            DeckId::A
        };
        return CcAction::Jog { deck };
    }
    if str_equal(m.param.as_str(), "crossfader") {
        return CcAction::Shared { param: SharedParam::Crossfader };
    }
    if str_equal(m.param.as_str(), "master_volume") {
        return CcAction::Shared { param: SharedParam::MasterVolume };
    }
    CcAction::Deck {
        deck: target_deck(m.deck, channel),
        deck_param: DeckParam::from_name(m.param.as_str()),
        exponential: m.exp == Some(true),
    }
}

/// Routes a control change from port `device_name` on 0-based `channel`,
/// controller `cc`, through `mappings`: one route per matching mapping, in order.
pub fn route_cc(mappings: &[CcMapping], device_name: &str, channel: u8, cc: u8) -> (r: Vec<Route>)
    requires
        channel_test_fits(mappings@, encode_utf8(device_name@), channel),
    ensures
        r@ == spec_route(mappings@, encode_utf8(device_name@), channel, cc),
{
    let port = device_name.as_bytes();
    let n = mappings.len();
    let mut routes: Vec<Route> = Vec::new();
    let mut i: usize = 0;
    while i < n
        invariant
            n == mappings@.len(),
            port@ == encode_utf8(device_name@),
            channel_test_fits(mappings@, port@, channel),
            i <= n,
            routes@ == spec_route(mappings@.take(i as int), port@, channel, cc),
        decreases n - i,
    {
        let m = &mappings[i];
        assert(mappings@.take(i + 1).drop_last() =~= mappings@.take(i as int));
        assert(mappings@.take(i + 1).last() == mappings@[i as int]);
        if applies(m, port, channel, cc) {
            routes.push(Route { mapping: i, action: action_for(m, channel) });
        }
        i = i + 1;
    }
    assert(mappings@.take(n as int) =~= mappings@);
    routes
}

/// Route `e` comes from a mapping of `ms` that matches, and carries its action.
pub open spec fn route_is_sound(ms: Seq<CcMapping>, port: Seq<u8>, channel: u8, cc: u8, e: Route) -> bool {
    &&& e.mapping < ms.len()
    &&& mapping_applies(ms[e.mapping as int], port, channel, cc)
    &&& e.action == spec_action(ms[e.mapping as int], channel)
}

/// Every route comes from a matching mapping, with that mapping's action.
pub proof fn lemma_route_sound(ms: Seq<CcMapping>, port: Seq<u8>, channel: u8, cc: u8)
    requires
        ms.len() <= usize::MAX,
    ensures
        forall|k: int|
            0 <= k < spec_route(ms, port, channel, cc).len() ==> route_is_sound(
                ms,
                port,
                channel,
                cc,
                #[trigger] spec_route(ms, port, channel, cc)[k],
            ),
    decreases ms.len(),
{
    if ms.len() > 0 {
        let prefix = ms.drop_last();
        lemma_route_sound(prefix, port, channel, cc);
        let rest = spec_route(prefix, port, channel, cc);
        let r = spec_route(ms, port, channel, cc);
        let last = Route { mapping: (ms.len() - 1) as usize, action: spec_action(ms.last(), channel) };
        if mapping_applies(ms.last(), port, channel, cc) {
            assert(r == rest.push(last));
        } else {
            assert(r == rest);
        }
        assert forall|k: int| 0 <= k < r.len() implies route_is_sound(ms, port, channel, cc, #[trigger] r[k]) by {
            if k < rest.len() {
                assert(r[k] == rest[k]);
                assert(route_is_sound(prefix, port, channel, cc, rest[k]));
                assert(prefix[rest[k].mapping as int] == ms[rest[k].mapping as int]);
            }
        }
    }
}

/// Routes come in the order of the mappings, each mapping at most once, and
/// all of them point into the list.
pub proof fn lemma_route_ordered(ms: Seq<CcMapping>, port: Seq<u8>, channel: u8, cc: u8)
    requires
        ms.len() <= usize::MAX,
    ensures
        forall|k: int|
            0 <= k < spec_route(ms, port, channel, cc).len() ==> (#[trigger] spec_route(
                ms,
                port,
                channel,
                cc,
            )[k]).mapping < ms.len(),
        forall|j: int, k: int|
            0 <= j < k < spec_route(ms, port, channel, cc).len() ==> (#[trigger] spec_route(
                ms,
                port,
                channel,
                cc,
            )[j]).mapping < (#[trigger] spec_route(ms, port, channel, cc)[k]).mapping,
    decreases ms.len(),
{
    if ms.len() > 0 {
        let prefix = ms.drop_last();
        lemma_route_ordered(prefix, port, channel, cc);
        let rest = spec_route(prefix, port, channel, cc);
        let r = spec_route(ms, port, channel, cc);
        let last = Route { mapping: (ms.len() - 1) as usize, action: spec_action(ms.last(), channel) };
        if mapping_applies(ms.last(), port, channel, cc) {
            assert(r == rest.push(last));
        } else {
            assert(r == rest);
        }
        assert forall|j: int, k: int| 0 <= j < k < r.len() implies (#[trigger] r[j]).mapping < (#[trigger] r[k]).mapping by {
            assert(r[j] == rest[j]);
            if k < rest.len() {
                assert(r[k] == rest[k]);
            }
        }
        assert forall|k: int| 0 <= k < r.len() implies (#[trigger] r[k]).mapping < ms.len() by {
            if k < rest.len() {
                assert(r[k] == rest[k]);
            }
        }
    }
}

/// Every matching mapping gets a route.
pub proof fn lemma_route_complete(ms: Seq<CcMapping>, port: Seq<u8>, channel: u8, cc: u8)
    requires
        ms.len() <= usize::MAX,
    ensures
        forall|i: int|
            0 <= i < ms.len() && mapping_applies(#[trigger] ms[i], port, channel, cc) ==> exists|
                k: int,
            |
                0 <= k < spec_route(ms, port, channel, cc).len() && (#[trigger] spec_route(
                    ms,
                    port,
                    channel,
                    cc,
                )[k]).mapping == i,
    decreases ms.len(),
{
    if ms.len() > 0 {
        let prefix = ms.drop_last();
        lemma_route_complete(prefix, port, channel, cc);
        let rest = spec_route(prefix, port, channel, cc);
        let r = spec_route(ms, port, channel, cc);
        let last = Route { mapping: (ms.len() - 1) as usize, action: spec_action(ms.last(), channel) };
        if mapping_applies(ms.last(), port, channel, cc) {
            assert(r == rest.push(last));
        } else {
            assert(r == rest);
        }
        assert forall|i: int|
            0 <= i < ms.len() && mapping_applies(#[trigger] ms[i], port, channel, cc) implies exists|
            k: int,
        | 0 <= k < r.len() && (#[trigger] r[k]).mapping == i by {
            if i < ms.len() - 1 {
                assert(prefix[i] == ms[i]);
                let k = choose|k: int| 0 <= k < rest.len() && (#[trigger] rest[k]).mapping == i;
                assert(r[k] == rest[k]);
            } else {
                assert(ms[i] == ms.last());
                assert(r[r.len() - 1] == last);
            }
        }
    }
}

/// A control change reaches exactly the mappings that match it: one route per
/// matching mapping, carrying that mapping's action, in the order of the list.
pub proof fn lemma_route_exact(ms: Seq<CcMapping>, port: Seq<u8>, channel: u8, cc: u8)
    requires
        ms.len() <= usize::MAX,
    ensures
        forall|k: int|
            0 <= k < spec_route(ms, port, channel, cc).len() ==> route_is_sound(
                ms,
                port,
                channel,
                cc,
                #[trigger] spec_route(ms, port, channel, cc)[k],
            ),
        forall|j: int, k: int|
            0 <= j < k < spec_route(ms, port, channel, cc).len() ==> (#[trigger] spec_route(
                ms,
                port,
                channel,
                cc,
            )[j]).mapping < (#[trigger] spec_route(ms, port, channel, cc)[k]).mapping,
        forall|i: int|
            0 <= i < ms.len() && mapping_applies(#[trigger] ms[i], port, channel, cc) ==> exists|
                k: int,
            |
                0 <= k < spec_route(ms, port, channel, cc).len() && (#[trigger] spec_route(
                    ms,
                    port,
                    channel,
                    cc,
                )[k]).mapping == i,
{
    lemma_route_sound(ms, port, channel, cc);
    lemma_route_ordered(ms, port, channel, cc);
    lemma_route_complete(ms, port, channel, cc);
}

/// A port whose name contains no mapping's device name moves nothing.
pub proof fn lemma_unknown_device_is_ignored(ms: Seq<CcMapping>, port: Seq<u8>, channel: u8, cc: u8)
    requires
        ms.len() <= usize::MAX,
        forall|i: int| 0 <= i < ms.len() ==> !device_matches(#[trigger] ms[i], port),
    ensures
        spec_route(ms, port, channel, cc).len() == 0,
{
    lemma_route_sound(ms, port, channel, cc);
    let r = spec_route(ms, port, channel, cc);
    if r.len() > 0 {
        assert(route_is_sound(ms, port, channel, cc, r[0]));
        reveal(mapping_applies);
        assert(!device_matches(ms[r[0].mapping as int], port));
    }
}

/// Only a mapping marked `relative = true` scrubs a jog wheel; a mapping marked
/// `relative = false` acts exactly like one that leaves `relative` out.
pub proof fn lemma_jog_only_when_relative(m: CcMapping, channel: u8)
    ensures
        (spec_action(m, channel) is Jog) <==> m.relative == Some(true),
        spec_action(CcMapping { relative: Some(false), ..m }, channel) == spec_action(
            CcMapping { relative: None, ..m },
            channel,
        ),
        m.relative != Some(true) && m.param@ != "crossfader"@ && m.param@ != "master_volume"@
            ==> spec_action(m, channel) is Deck,
{
}

} // verus!
