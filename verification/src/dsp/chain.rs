//! The factory voice-processing presets.

use vstd::prelude::*;

use crate::text::str_eq;

verus! {

/// Factory voice presets.
#[derive(Debug, Clone, Copy, PartialEq, Eq, Structural)]
pub enum Preset {
    Voice,
    BrightVoice,
    WarmVoice,
    Broadcast,
}

/// A preset's stable id.
pub open spec fn preset_id(p: Preset) -> Seq<char> {
    match p {
        Preset::Voice => "voice"@,
        Preset::BrightVoice => "bright-voice"@,
        Preset::WarmVoice => "warm-voice"@,
        Preset::Broadcast => "broadcast"@,
    }
}

/// A preset's display label.
pub open spec fn preset_label(p: Preset) -> Seq<char> {
    match p {
        Preset::Voice => "Voice"@,
        Preset::BrightVoice => "Bright Voice"@,
        Preset::WarmVoice => "Warm Voice"@,
        Preset::Broadcast => "Broadcast"@,
    }
}

/// A preset's one-line description.
pub open spec fn preset_description(p: Preset) -> Seq<char> {
    match p {
        Preset::Voice => "Clean, natural — a high-pass and gentle dynamics."@,
        Preset::BrightVoice => "Adds presence and air, with de-essing to stay smooth."@,
        Preset::WarmVoice => "Fuller and rounder; a little low-shelf and tape warmth."@,
        Preset::Broadcast => "Radio-ready: present, controlled, consistently loud."@,
    }
}

/// The presets in picker order.
pub open spec fn preset_order() -> Seq<Preset> {
    seq![Preset::Voice, Preset::BrightVoice, Preset::WarmVoice, Preset::Broadcast]
}

impl Preset {
    /// Every preset, in picker order.
    pub const ALL: [Preset; 4] = [
        Preset::Voice,
        Preset::BrightVoice,
        Preset::WarmVoice,
        Preset::Broadcast,
    ];

    /// The stable id.
    pub fn id(self) -> (s: &'static str)
        ensures
            s@ == preset_id(self),
    {
        match self {
            Preset::Voice => "voice",
            Preset::BrightVoice => "bright-voice",
            Preset::WarmVoice => "warm-voice",
            Preset::Broadcast => "broadcast",
        }
    }

    /// The display label.
    pub fn label(self) -> (s: &'static str)
        ensures
            s@ == preset_label(self),
    {
        match self {
            Preset::Voice => "Voice",
            Preset::BrightVoice => "Bright Voice",
            Preset::WarmVoice => "Warm Voice",
            Preset::Broadcast => "Broadcast",
        }
    }

    /// The one-line description.
    pub fn description(self) -> (s: &'static str)
        ensures
            s@ == preset_description(self),
    {
        match self {
            Preset::Voice => "Clean, natural — a high-pass and gentle dynamics.",
            Preset::BrightVoice => "Adds presence and air, with de-essing to stay smooth.",
            Preset::WarmVoice => "Fuller and rounder; a little low-shelf and tape warmth.",
            Preset::Broadcast => "Radio-ready: present, controlled, consistently loud.",
        }
    }

    /// The preset at position `i` of the picker order.
    fn at(i: usize) -> (p: Preset)
        requires
            i < 4,
        ensures
            p == preset_order()[i as int],
    {
        if i == 0 {
            Preset::Voice
        } else if i == 1 {
            Preset::BrightVoice
        } else if i == 2 {
            Preset::WarmVoice
        } else {
            Preset::Broadcast
        }
    }

    /// The preset with the given id, if any.
    pub fn from_id(id: &str) -> (r: Option<Preset>)
        ensures
            r matches Some(p) ==> preset_id(p) == id@,
            r is None <==> forall|p: Preset| #[trigger] preset_id(p) != id@,
    {
        let mut i: usize = 0;
        while i < 4
            invariant
                i <= 4,
                forall|k: int| 0 <= k < i ==> preset_id(#[trigger] preset_order()[k]) != id@,
            decreases 4 - i,
        {
            let p = Preset::at(i);
            if str_eq(p.id(), id) {
                return Some(p);
            }
            i = i + 1;
        }
        assert forall|p: Preset| #[trigger] preset_id(p) != id@ by {
            match p {
                Preset::Voice => assert(preset_id(preset_order()[0]) != id@),
                Preset::BrightVoice => assert(preset_id(preset_order()[1]) != id@),
                Preset::WarmVoice => assert(preset_id(preset_order()[2]) != id@),
                Preset::Broadcast => assert(preset_id(preset_order()[3]) != id@),
            }
        }
        None
    }
}

/// Preset metadata for the preset picker.
#[derive(Debug, Clone, PartialEq)]
pub struct PresetInfo {
    pub id: String,
    pub label: String,
    pub description: String,
}

/// `info` describes preset `p`.
pub open spec fn describes(info: PresetInfo, p: Preset) -> bool {
    &&& info.id@ == preset_id(p)
    &&& info.label@ == preset_label(p)
    &&& info.description@ == preset_description(p)
}

/// All factory presets, in picker order.
pub fn preset_infos() -> (v: Vec<PresetInfo>)
    ensures
        v@.len() == 4,
        forall|i: int| 0 <= i < 4 ==> describes(#[trigger] v@[i], preset_order()[i]),
{
    let mut v: Vec<PresetInfo> = Vec::new();
    let mut i: usize = 0;
    while i < 4
        invariant
            i <= 4,
            v@.len() == i,
            forall|k: int| 0 <= k < i ==> describes(#[trigger] v@[k], preset_order()[k]),
        decreases 4 - i,
    {
        let p = Preset::at(i);
        v.push(
            PresetInfo {
                id: p.id().to_string(),
                label: p.label().to_string(),
                description: p.description().to_string(),
            },
        );
        i = i + 1;
    }
    v
}

/// Preset ids are unique: looking a preset up by its own id gives it back.
pub proof fn lemma_preset_ids_unique(p: Preset, q: Preset)
    requires
        preset_id(p) == preset_id(q),
    ensures
        p == q,
{
    reveal_strlit("voice");
    reveal_strlit("bright-voice");
    reveal_strlit("warm-voice");
    reveal_strlit("broadcast");
    assert(preset_id(Preset::Voice).len() == 5);
    assert(preset_id(Preset::BrightVoice).len() == 12);
    assert(preset_id(Preset::WarmVoice).len() == 10);
    assert(preset_id(Preset::Broadcast).len() == 9);
    assert(preset_id(p).len() == preset_id(q).len());
}

} // verus!
