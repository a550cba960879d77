use vstd::prelude::*;

verus! {

/// How an envelope's level stands against the marks that end its stages.
/// The caller measures these on its floating-point level.
#[derive(Clone, Copy, Debug, PartialEq, Eq, Structural)]
pub struct LevelMarks {
    /// the level is at least 1, the peak
    pub at_peak: bool,
    /// the level is at most the stage threshold (the sustain level, or the break)
    pub at_threshold: bool,
    /// the level is at most the release mark
    pub at_release_mark: bool,
    /// the level is at most 0
    pub at_floor: bool,
}

/// How a key signal stands against the trigger level of 0.75. The caller
/// measures this on the squashed sum of the key samples.
#[derive(Clone, Copy, Debug, PartialEq, Eq, Structural)]
pub struct GateLevel {
    /// the signal is at or above the trigger level
    pub high: bool,
    /// the signal is at or below the trigger level
    pub low: bool,
}

/// What a change of stage does to the envelope's level.
#[derive(Clone, Copy, Debug, PartialEq, Eq, Structural)]
pub enum LevelReset {
    /// the level is left as it is
    Keep,
    /// the level is set to the peak, 1
    ToPeak,
    /// the level is set to 0
    ToZero,
}

/// The stages of an attack-decay-sustain-release envelope.
#[derive(Clone, Copy, Debug, PartialEq, Eq, Structural)]
pub enum AdsrPhase {
    Neutral,
    Attack,
    Decay,
    Sustain,
    Release,
}

/// The stage after one step of an ADSR envelope, and what it does to the
/// level: the attack ends at the peak, the decay at the sustain level, the
/// sustain at the release mark and the release at the floor.
pub open spec fn adsr_next(p: AdsrPhase, m: LevelMarks) -> (AdsrPhase, LevelReset) {
    match p {
        AdsrPhase::Attack => if m.at_peak {
            (AdsrPhase::Decay, LevelReset::ToPeak)
        } else {
            (p, LevelReset::Keep)
        },
        AdsrPhase::Decay => if m.at_threshold {
            (AdsrPhase::Sustain, LevelReset::Keep)
        } else {
            (p, LevelReset::Keep)
        },
        AdsrPhase::Sustain => if m.at_release_mark {
            (AdsrPhase::Release, LevelReset::Keep)
        } else {
            (p, LevelReset::Keep)
        },
        AdsrPhase::Release => if m.at_floor {
            (AdsrPhase::Neutral, LevelReset::ToZero)
        } else {
            (p, LevelReset::Keep)
        },
        AdsrPhase::Neutral => (p, LevelReset::Keep),
    }
}

/// The stage and key state of an ADSR envelope after a gate sample: a held
/// key let go starts the release; a key pressed while the envelope rests
/// starts the attack.
pub open spec fn adsr_gate(p: AdsrPhase, pressed: bool, g: GateLevel) -> (AdsrPhase, bool) {
    if pressed && g.low {
        (AdsrPhase::Release, false)
    } else if !pressed && p == AdsrPhase::Neutral && g.high {
        (AdsrPhase::Attack, true)
    } else {
        (p, pressed)
    }
}

/// The stage logic of an ADSR envelope.
#[derive(Clone, Copy, Debug)]
pub struct Adsr {
    phase: AdsrPhase,
    pressed: bool,
}

impl Adsr {
    /// An envelope attacks only while its key is held.
    #[verifier::type_invariant]
    closed spec fn attack_held(self) -> bool {
        self.phase == AdsrPhase::Attack ==> self.pressed
    }

    /// The current stage.
    pub closed spec fn stage(self) -> AdsrPhase {
        self.phase
    }

    /// Whether the key is held.
    pub closed spec fn held(self) -> bool {
        self.pressed
    }

    /// An envelope at rest with no key held.
    pub fn new() -> (e: Adsr)
        ensures
            e.stage() == AdsrPhase::Neutral,
            !e.held(),
    {
        Adsr { phase: AdsrPhase::Neutral, pressed: false }
    }

    /// The current stage.
    pub fn phase(&self) -> (p: AdsrPhase)
        ensures
            p == self.stage(),
    {
        self.phase
    }

    /// Whether the envelope is sounding: it is not at rest.
    pub fn is_active(&self) -> (r: bool)
        ensures
            r == (self.stage() != AdsrPhase::Neutral),
    {
        self.phase != AdsrPhase::Neutral
    }

    /// Moves to the next stage where the level has passed the current
    /// stage's mark (see `adsr_next`), and says what to do to the level.
    pub fn advance(&mut self, m: LevelMarks) -> (r: LevelReset)
        ensures
            (final(self).stage(), r) == adsr_next(old(self).stage(), m),
            final(self).held() == old(self).held(),
    {
        proof {
            use_type_invariant(&*self);
        }
        let (p, r) = match self.phase {
            AdsrPhase::Attack => if m.at_peak {
                (AdsrPhase::Decay, LevelReset::ToPeak)
            } else {
                (AdsrPhase::Attack, LevelReset::Keep)
            },
            AdsrPhase::Decay => if m.at_threshold {
                (AdsrPhase::Sustain, LevelReset::Keep)
            } else {
                (AdsrPhase::Decay, LevelReset::Keep)
            },
            AdsrPhase::Sustain => if m.at_release_mark {
                (AdsrPhase::Release, LevelReset::Keep)
            } else {
                (AdsrPhase::Sustain, LevelReset::Keep)
            },
            AdsrPhase::Release => if m.at_floor {
                (AdsrPhase::Neutral, LevelReset::ToZero)
            } else {
                (AdsrPhase::Release, LevelReset::Keep)
            },
            AdsrPhase::Neutral => (AdsrPhase::Neutral, LevelReset::Keep),
        };
        *self = Adsr { phase: p, pressed: self.pressed };
        r
    }

    /// Takes a gate sample (see `adsr_gate`) and returns whether the key is
    /// now held.
    pub fn gate(&mut self, g: GateLevel) -> (held: bool)
        ensures
            (final(self).stage(), final(self).held()) == adsr_gate(
                old(self).stage(),
                old(self).held(),
                g,
            ),
            held == final(self).held(),
    {
        if self.pressed && g.low {
            *self = Adsr { phase: AdsrPhase::Release, pressed: false };
        } else if !self.pressed && self.phase == AdsrPhase::Neutral && g.high {
            *self = Adsr { phase: AdsrPhase::Attack, pressed: true };
        }
        self.pressed
    }
}

/// The stages of an attack-decay envelope.
#[derive(Clone, Copy, Debug, PartialEq, Eq, Structural)]
pub enum AdPhase {
    Neutral,
    Attack,
    Decay,
    Release,
}

/// The stage after one step of an AD envelope: the attack ends at the
/// peak, the decay and then the release at the floor.
pub open spec fn ad_next(p: AdPhase, m: LevelMarks) -> (AdPhase, LevelReset) {
    match p {
        AdPhase::Attack => if m.at_peak {
            (AdPhase::Decay, LevelReset::ToPeak)
        } else {
            (p, LevelReset::Keep)
        },
        AdPhase::Decay => if m.at_floor {
            (AdPhase::Release, LevelReset::Keep)
        } else {
            (p, LevelReset::Keep)
        },
        AdPhase::Release => if m.at_floor {
            (AdPhase::Neutral, LevelReset::ToZero)
        } else {
            (p, LevelReset::Keep)
        },
        AdPhase::Neutral => (p, LevelReset::Keep),
    }
}

/// The stage and key state of an AD envelope after a gate sample.
pub open spec fn ad_gate(p: AdPhase, pressed: bool, g: GateLevel) -> (AdPhase, bool) {
    if pressed && g.low {
        (AdPhase::Release, false)
    } else if !pressed && p == AdPhase::Neutral && g.high {
        (AdPhase::Attack, true)
    } else {
        (p, pressed)
    }
}

/// The stage logic of an AD envelope.
#[derive(Clone, Copy, Debug)]
pub struct Ad {
    phase: AdPhase,
    pressed: bool,
}

impl Ad {
    /// An envelope attacks only while its key is held.
    #[verifier::type_invariant]
    closed spec fn attack_held(self) -> bool {
        self.phase == AdPhase::Attack ==> self.pressed
    }

    /// The current stage.
    pub closed spec fn stage(self) -> AdPhase {
        self.phase
    }

    /// Whether the key is held.
    pub closed spec fn held(self) -> bool {
        self.pressed
    }

    /// An envelope at rest with no key held.
    pub fn new() -> (e: Ad)
        ensures
            e.stage() == AdPhase::Neutral,
            !e.held(),
    {
        Ad { phase: AdPhase::Neutral, pressed: false }
    }

    /// The current stage.
    pub fn phase(&self) -> (p: AdPhase)
        ensures
            p == self.stage(),
    {
        self.phase
    }

    /// Whether the envelope is sounding: it is not at rest.
    pub fn is_active(&self) -> (r: bool)
        ensures
            r == (self.stage() != AdPhase::Neutral),
    {
        self.phase != AdPhase::Neutral
    }

    /// Moves to the next stage (see `ad_next`).
    pub fn advance(&mut self, m: LevelMarks) -> (r: LevelReset)
        ensures
            (final(self).stage(), r) == ad_next(old(self).stage(), m),
            final(self).held() == old(self).held(),
    {
        proof {
            use_type_invariant(&*self);
        }
        let (p, r) = match self.phase {
            AdPhase::Attack => if m.at_peak {
                (AdPhase::Decay, LevelReset::ToPeak)
            } else {
                (AdPhase::Attack, LevelReset::Keep)
            },
            AdPhase::Decay => if m.at_floor {
                (AdPhase::Release, LevelReset::Keep)
            } else {
                (AdPhase::Decay, LevelReset::Keep)
            },
            AdPhase::Release => if m.at_floor {
                (AdPhase::Neutral, LevelReset::ToZero)
            } else {
                (AdPhase::Release, LevelReset::Keep)
            },
            AdPhase::Neutral => (AdPhase::Neutral, LevelReset::Keep),
        };
        *self = Ad { phase: p, pressed: self.pressed };
        r
    }

    /// Takes a gate sample (see `ad_gate`) and returns whether the key is
    /// now held.
    pub fn gate(&mut self, g: GateLevel) -> (held: bool)
        ensures
            (final(self).stage(), final(self).held()) == ad_gate(
                old(self).stage(),
                old(self).held(),
                g,
            ),
            held == final(self).held(),
    {
        if self.pressed && g.low {
            *self = Ad { phase: AdPhase::Release, pressed: false };
        } else if !self.pressed && self.phase == AdPhase::Neutral && g.high {
            *self = Ad { phase: AdPhase::Attack, pressed: true };
        }
        self.pressed
    }
}

/// The stages of an attack-decay-break-decay-release envelope.
#[derive(Clone, Copy, Debug, PartialEq, Eq, Structural)]
pub enum AdbdrPhase {
    Neutral,
    Attack,
    Decay1,
    Decay2,
    Release,
}

/// The stage after one step of an ADBDR envelope: the attack ends at the
/// peak, the first decay at the break, the second decay at the release mark
/// and the release at the floor.
pub open spec fn adbdr_next(p: AdbdrPhase, m: LevelMarks) -> (AdbdrPhase, LevelReset) {
    match p {
        AdbdrPhase::Attack => if m.at_peak {
            (AdbdrPhase::Decay1, LevelReset::ToPeak)
        } else {
            (p, LevelReset::Keep)
        },
        AdbdrPhase::Decay1 => if m.at_threshold {
            (AdbdrPhase::Decay2, LevelReset::Keep)
        } else {
            (p, LevelReset::Keep)
        },
        AdbdrPhase::Decay2 => if m.at_release_mark {
            (AdbdrPhase::Release, LevelReset::Keep)
        } else {
            (p, LevelReset::Keep)
        },
        AdbdrPhase::Release => if m.at_floor {
            (AdbdrPhase::Neutral, LevelReset::ToZero)
        } else {
            (p, LevelReset::Keep)
        },
        AdbdrPhase::Neutral => (p, LevelReset::Keep),
    }
}

/// The stage and key state of an ADBDR envelope after a gate sample: a
/// sounding envelope let go starts the release; an envelope at rest
/// pressed starts the attack.
pub open spec fn adbdr_gate(p: AdbdrPhase, pressed: bool, g: GateLevel) -> (AdbdrPhase, bool) {
    if p != AdbdrPhase::Neutral && g.low {
        (AdbdrPhase::Release, false)
    } else if p == AdbdrPhase::Neutral && g.high {
        (AdbdrPhase::Attack, true)
    } else {
        (p, pressed)
    }
}

/// The stage logic of an ADBDR envelope.
#[derive(Clone, Copy, Debug)]
pub struct Adbdr {
    phase: AdbdrPhase,
    pressed: bool,
}

impl Adbdr {
    /// An envelope attacks only while its key is held.
    #[verifier::type_invariant]
    closed spec fn attack_held(self) -> bool {
        self.phase == AdbdrPhase::Attack ==> self.pressed
    }

    /// The current stage.
    pub closed spec fn stage(self) -> AdbdrPhase {
        self.phase
    }

    /// Whether the key is held.
    pub closed spec fn held(self) -> bool {
        self.pressed
    }

    /// An envelope at rest with no key held.
    pub fn new() -> (e: Adbdr)
        ensures
            e.stage() == AdbdrPhase::Neutral,
            !e.held(),
    {
        Adbdr { phase: AdbdrPhase::Neutral, pressed: false }
    }

    /// The current stage.
    pub fn phase(&self) -> (p: AdbdrPhase)
        ensures
            p == self.stage(),
    {
        self.phase
    }

    /// Whether the envelope is sounding: it is not at rest.
    pub fn is_active(&self) -> (r: bool)
        ensures
            r == (self.stage() != AdbdrPhase::Neutral),
    {
        self.phase != AdbdrPhase::Neutral
    }

    /// Moves to the next stage (see `adbdr_next`).
    pub fn advance(&mut self, m: LevelMarks) -> (r: LevelReset)
        ensures
            (final(self).stage(), r) == adbdr_next(old(self).stage(), m),
            final(self).held() == old(self).held(),
    {
        proof {
            use_type_invariant(&*self);
        }
        let (p, r) = match self.phase {
            AdbdrPhase::Attack => if m.at_peak {
                (AdbdrPhase::Decay1, LevelReset::ToPeak)
            } else {
                (AdbdrPhase::Attack, LevelReset::Keep)
            },
            AdbdrPhase::Decay1 => if m.at_threshold {
                (AdbdrPhase::Decay2, LevelReset::Keep)
            } else {
                (AdbdrPhase::Decay1, LevelReset::Keep)
            },
            AdbdrPhase::Decay2 => if m.at_release_mark {
                (AdbdrPhase::Release, LevelReset::Keep)
            } else {
                (AdbdrPhase::Decay2, LevelReset::Keep)
            },
            AdbdrPhase::Release => if m.at_floor {
                (AdbdrPhase::Neutral, LevelReset::ToZero)
            } else {
                (AdbdrPhase::Release, LevelReset::Keep)
            },
            AdbdrPhase::Neutral => (AdbdrPhase::Neutral, LevelReset::Keep),
        };
        *self = Adbdr { phase: p, pressed: self.pressed };
        r
    }

    /// Takes a gate sample (see `adbdr_gate`) and returns whether the key
    /// is now held.
    pub fn gate(&mut self, g: GateLevel) -> (held: bool)
        ensures
            (final(self).stage(), final(self).held()) == adbdr_gate(
                old(self).stage(),
                old(self).held(),
                g,
            ),
            held == final(self).held(),
    {
        if self.phase != AdbdrPhase::Neutral && g.low {
            *self = Adbdr { phase: AdbdrPhase::Release, pressed: false };
        } else if self.phase == AdbdrPhase::Neutral && g.high {
            *self = Adbdr { phase: AdbdrPhase::Attack, pressed: true };
        }
        self.pressed
    }
}

/// An ADSR envelope attacks only while its key is held, whatever gate
/// samples and level steps come.
pub proof fn law_adsr_attacks_only_while_held(p: AdsrPhase, pressed: bool, g: GateLevel, m: LevelMarks)
    requires
        p == AdsrPhase::Attack ==> pressed,
    ensures
        adsr_gate(p, pressed, g).0 == AdsrPhase::Attack ==> adsr_gate(p, pressed, g).1,
        adsr_next(p, m).0 == AdsrPhase::Attack ==> pressed,
{
}

/// Letting go of a held key starts the release, and once the level reaches
/// the floor the envelope rests with its level set to zero.
pub proof fn law_adsr_release_comes_to_rest(p: AdsrPhase, g: GateLevel, m: LevelMarks)
    requires
        g.low,
        m.at_floor,
    ensures
        adsr_gate(p, true, g) == (AdsrPhase::Release, false),
        adsr_next(AdsrPhase::Release, m) == (AdsrPhase::Neutral, LevelReset::ToZero),
{
}

/// A key pressed while the envelope is still sounding after a release does
/// not restart it: with no key held, a gate sample leaves a sounding
/// envelope as it is.
pub proof fn law_adsr_no_retrigger_while_sounding(p: AdsrPhase, g: GateLevel)
    requires
        p != AdsrPhase::Neutral,
    ensures
        adsr_gate(p, false, g) == (p, false),
{
}

/// Without a gate sample an envelope at rest stays at rest.
pub proof fn law_rest_is_kept(m: LevelMarks)
    ensures
        adsr_next(AdsrPhase::Neutral, m) == (AdsrPhase::Neutral, LevelReset::Keep),
        ad_next(AdPhase::Neutral, m) == (AdPhase::Neutral, LevelReset::Keep),
        adbdr_next(AdbdrPhase::Neutral, m) == (AdbdrPhase::Neutral, LevelReset::Keep),
{
}

/// The stage an ADSR envelope moves on to when its current stage ends.
pub open spec fn adsr_following(p: AdsrPhase) -> AdsrPhase {
    match p {
        AdsrPhase::Attack => AdsrPhase::Decay,
        AdsrPhase::Decay => AdsrPhase::Sustain,
        AdsrPhase::Sustain => AdsrPhase::Release,
        AdsrPhase::Release => AdsrPhase::Neutral,
        AdsrPhase::Neutral => AdsrPhase::Neutral,
    }
}

/// The stage an AD envelope moves on to when its current stage ends.
pub open spec fn ad_following(p: AdPhase) -> AdPhase {
    match p {
        AdPhase::Attack => AdPhase::Decay,
        AdPhase::Decay => AdPhase::Release,
        AdPhase::Release => AdPhase::Neutral,
        AdPhase::Neutral => AdPhase::Neutral,
    }
}

/// The stage an ADBDR envelope moves on to when its current stage ends.
pub open spec fn adbdr_following(p: AdbdrPhase) -> AdbdrPhase {
    match p {
        AdbdrPhase::Attack => AdbdrPhase::Decay1,
        AdbdrPhase::Decay1 => AdbdrPhase::Decay2,
        AdbdrPhase::Decay2 => AdbdrPhase::Release,
        AdbdrPhase::Release => AdbdrPhase::Neutral,
        AdbdrPhase::Neutral => AdbdrPhase::Neutral,
    }
}

/// An ADSR envelope's stages run attack, decay, sustain, release, then
/// rest; a step stays in its stage or moves on to the next one. Each stage
/// ends exactly when the level passes its own mark: the attack at the peak,
/// the decay at the sustain level, the sustain at the release mark, the
/// release at the floor. The level is set to the peak when the attack ends
/// and to zero when the release ends, and kept otherwise.
pub proof fn law_adsr_stages_follow_the_level(p: AdsrPhase, m: LevelMarks)
    ensures
        adsr_next(p, m).0 == p || adsr_next(p, m).0 == adsr_following(p),
        adsr_next(AdsrPhase::Attack, m).0 != AdsrPhase::Attack <==> m.at_peak,
        adsr_next(AdsrPhase::Decay, m).0 != AdsrPhase::Decay <==> m.at_threshold,
        adsr_next(AdsrPhase::Sustain, m).0 != AdsrPhase::Sustain <==> m.at_release_mark,
        adsr_next(AdsrPhase::Release, m).0 != AdsrPhase::Release <==> m.at_floor,
        adsr_next(p, m).1 == LevelReset::ToPeak <==> (p == AdsrPhase::Attack && adsr_next(p, m).0
            != p),
        adsr_next(p, m).1 == LevelReset::ToZero <==> (p == AdsrPhase::Release && adsr_next(p, m).0
            != p),
{
}

/// An AD envelope's stages run attack, decay, release, then rest; a step
/// stays in its stage or moves on to the next one. The attack ends exactly
/// at the peak, the decay and the release exactly at the floor. The level is
/// set to the peak when the attack ends and to zero when the release ends,
/// and kept otherwise.
pub proof fn law_ad_stages_follow_the_level(p: AdPhase, m: LevelMarks)
    ensures
        ad_next(p, m).0 == p || ad_next(p, m).0 == ad_following(p),
        ad_next(AdPhase::Attack, m).0 != AdPhase::Attack <==> m.at_peak,
        ad_next(AdPhase::Decay, m).0 != AdPhase::Decay <==> m.at_floor,
        ad_next(AdPhase::Release, m).0 != AdPhase::Release <==> m.at_floor,
        ad_next(p, m).1 == LevelReset::ToPeak <==> (p == AdPhase::Attack && ad_next(p, m).0 != p),
        ad_next(p, m).1 == LevelReset::ToZero <==> (p == AdPhase::Release && ad_next(p, m).0 != p),
{
}

/// An ADBDR envelope's stages run attack, first decay, second decay,
/// release, then rest; a step stays in its stage or moves on to the next
/// one. The attack ends exactly at the peak, the first decay at the break,
/// the second decay at the release mark and the release at the floor. The
/// level is set to the peak when the attack ends and to zero when the
/// release ends, and kept otherwise.
pub proof fn law_adbdr_stages_follow_the_level(p: AdbdrPhase, m: LevelMarks)
    ensures
        adbdr_next(p, m).0 == p || adbdr_next(p, m).0 == adbdr_following(p),
        adbdr_next(AdbdrPhase::Attack, m).0 != AdbdrPhase::Attack <==> m.at_peak,
        adbdr_next(AdbdrPhase::Decay1, m).0 != AdbdrPhase::Decay1 <==> m.at_threshold,
        adbdr_next(AdbdrPhase::Decay2, m).0 != AdbdrPhase::Decay2 <==> m.at_release_mark,
        adbdr_next(AdbdrPhase::Release, m).0 != AdbdrPhase::Release <==> m.at_floor,
        adbdr_next(p, m).1 == LevelReset::ToPeak <==> (p == AdbdrPhase::Attack && adbdr_next(
            p,
            m,
        ).0 != p),
        adbdr_next(p, m).1 == LevelReset::ToZero <==> (p == AdbdrPhase::Release && adbdr_next(
            p,
            m,
        ).0 != p),
{
}

/// A releasing envelope whose level has reached the floor comes to rest
/// with its level set to zero, whatever its shape.
pub proof fn law_release_at_the_floor_rests(m: LevelMarks)
    requires
        m.at_floor,
    ensures
        adsr_next(AdsrPhase::Release, m) == (AdsrPhase::Neutral, LevelReset::ToZero),
        ad_next(AdPhase::Release, m) == (AdPhase::Neutral, LevelReset::ToZero),
        adbdr_next(AdbdrPhase::Release, m) == (AdbdrPhase::Neutral, LevelReset::ToZero),
{
}

/// A key signal changes an envelope only by starting its release or its
/// attack. The release starts exactly when a held key (for ADBDR: a
/// sounding envelope) is let go; the attack starts exactly when a key is
/// pressed on an envelope at rest (for ADSR and AD: with no key held).
pub proof fn law_key_starts_attack_or_release(
    p: AdsrPhase,
    q: AdPhase,
    r: AdbdrPhase,
    pressed: bool,
    g: GateLevel,
)
    ensures
        adsr_gate(p, pressed, g) == (p, pressed) || adsr_gate(p, pressed, g) == (
            AdsrPhase::Release,
            false,
        ) || adsr_gate(p, pressed, g) == (AdsrPhase::Attack, true),
        adsr_gate(p, pressed, g) == (AdsrPhase::Release, false) && (p, pressed) != (
            AdsrPhase::Release,
            false,
        ) <==> pressed && g.low,
        adsr_gate(p, pressed, g).0 == AdsrPhase::Attack && p != AdsrPhase::Attack <==> !pressed && p
            == AdsrPhase::Neutral && g.high,
        ad_gate(q, pressed, g) == (AdPhase::Release, false) && (q, pressed) != (
            AdPhase::Release,
            false,
        ) <==> pressed && g.low,
        ad_gate(q, pressed, g).0 == AdPhase::Attack && q != AdPhase::Attack <==> !pressed && q
            == AdPhase::Neutral && g.high,
        adbdr_gate(r, pressed, g).0 == AdbdrPhase::Release && r != AdbdrPhase::Release <==> r
            != AdbdrPhase::Neutral && r != AdbdrPhase::Release && g.low,
        adbdr_gate(r, pressed, g).0 == AdbdrPhase::Attack && r != AdbdrPhase::Attack <==> r
            == AdbdrPhase::Neutral && g.high,
{
}

/// An envelope whose level meets every mark runs through all its stages in
/// order, one per step, and comes to rest with its level set to zero: ADSR
/// from attack through decay, sustain and release; AD through decay and
/// release; ADBDR through both decays and release.
pub proof fn law_marks_met_run_every_stage(m: LevelMarks)
    requires
        m.at_peak && m.at_threshold && m.at_release_mark && m.at_floor,
    ensures
        adsr_next(AdsrPhase::Attack, m) == (AdsrPhase::Decay, LevelReset::ToPeak),
        adsr_next(AdsrPhase::Decay, m) == (AdsrPhase::Sustain, LevelReset::Keep),
        adsr_next(AdsrPhase::Sustain, m) == (AdsrPhase::Release, LevelReset::Keep),
        adsr_next(AdsrPhase::Release, m) == (AdsrPhase::Neutral, LevelReset::ToZero),
        ad_next(AdPhase::Attack, m) == (AdPhase::Decay, LevelReset::ToPeak),
        ad_next(AdPhase::Decay, m) == (AdPhase::Release, LevelReset::Keep),
        ad_next(AdPhase::Release, m) == (AdPhase::Neutral, LevelReset::ToZero),
        adbdr_next(AdbdrPhase::Attack, m) == (AdbdrPhase::Decay1, LevelReset::ToPeak),
        adbdr_next(AdbdrPhase::Decay1, m) == (AdbdrPhase::Decay2, LevelReset::Keep),
        adbdr_next(AdbdrPhase::Decay2, m) == (AdbdrPhase::Release, LevelReset::Keep),
        adbdr_next(AdbdrPhase::Release, m) == (AdbdrPhase::Neutral, LevelReset::ToZero),
{
}

} // verus!
