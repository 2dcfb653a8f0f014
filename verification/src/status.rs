//! The closed catalogue of conditions and the timed status effect a
//! combatant can carry.
use vstd::prelude::*;

verus! {

#[derive(Debug, Clone, Copy, PartialEq, Eq, Structural)]
pub enum ConditionType {
    Blinded,
    Charmed,
    Deafened,
    Frightened,
    Grappled,
    Incapacitated,
    Invisible,
    Paralyzed,
    Petrified,
    Poisoned,
    Prone,
    Restrained,
    Stunned,
    Unconscious,
}

impl ConditionType {
    /// Human-readable name of the condition.
    pub open spec fn spec_name(self) -> Seq<char> {
        match self {
            ConditionType::Blinded => "Blinded"@,
            ConditionType::Charmed => "Charmed"@,
            ConditionType::Deafened => "Deafened"@,
            ConditionType::Frightened => "Frightened"@,
            ConditionType::Grappled => "Grappled"@,
            ConditionType::Incapacitated => "Incapacitated"@,
            ConditionType::Invisible => "Invisible"@,
            ConditionType::Paralyzed => "Paralyzed"@,
            ConditionType::Petrified => "Petrified"@,
            ConditionType::Poisoned => "Poisoned"@,
            ConditionType::Prone => "Prone"@,
            ConditionType::Restrained => "Restrained"@,
            ConditionType::Stunned => "Stunned"@,
            ConditionType::Unconscious => "Unconscious"@,
        }
    }

    pub fn as_str(&self) -> (r: &'static str)
        ensures
            r@ == self.spec_name(),
    {
        match self {
            ConditionType::Blinded => "Blinded",
            ConditionType::Charmed => "Charmed",
            ConditionType::Deafened => "Deafened",
            ConditionType::Frightened => "Frightened",
            ConditionType::Grappled => "Grappled",
            ConditionType::Incapacitated => "Incapacitated",
            ConditionType::Invisible => "Invisible",
            ConditionType::Paralyzed => "Paralyzed",
            ConditionType::Petrified => "Petrified",
            ConditionType::Poisoned => "Poisoned",
            ConditionType::Prone => "Prone",
            ConditionType::Restrained => "Restrained",
            ConditionType::Stunned => "Stunned",
            ConditionType::Unconscious => "Unconscious",
        }
    }

    /// Every condition, in catalogue order.
    pub open spec fn spec_all() -> Seq<ConditionType> {
        seq![
            ConditionType::Blinded,
            ConditionType::Charmed,
            ConditionType::Deafened,
            ConditionType::Frightened,
            ConditionType::Grappled,
            ConditionType::Incapacitated,
            ConditionType::Invisible,
            ConditionType::Paralyzed,
            ConditionType::Petrified,
            ConditionType::Poisoned,
            ConditionType::Prone,
            ConditionType::Restrained,
            ConditionType::Stunned,
            ConditionType::Unconscious,
        ]
    }

    pub fn all() -> (r: Vec<ConditionType>)
        ensures
            r@ == Self::spec_all(),
            r@.len() == 14,
    {
        let r = vec![
            ConditionType::Blinded,
            ConditionType::Charmed,
            ConditionType::Deafened,
            ConditionType::Frightened,
            ConditionType::Grappled,
            ConditionType::Incapacitated,
            ConditionType::Invisible,
            ConditionType::Paralyzed,
            ConditionType::Petrified,
            ConditionType::Poisoned,
            ConditionType::Prone,
            ConditionType::Restrained,
            ConditionType::Stunned,
            ConditionType::Unconscious,
        ];
        proof {
            assert(r@ =~= Self::spec_all());
        }
        r
    }

    /// Full rules text of the condition.
    pub open spec fn spec_description(self) -> Seq<char> {
        match self {
            ConditionType::Blinded => "Automatically fails sight-based checks; attack rolls against have advantage; their attacks have disadvantage."@,
            ConditionType::Charmed => "Can't attack charmer; charmer has advantage on social checks."@,
            ConditionType::Deafened => "Automatically fails hearing-based checks."@,
            ConditionType::Frightened => "Disadvantage on ability checks/attacks while source in sight; can't willingly move closer to source."@,
            ConditionType::Grappled => "Speed becomes 0; ends if grappler is incapacitated or moved away."@,
            ConditionType::Incapacitated => "Can't take actions or reactions."@,
            ConditionType::Invisible => "Can't be seen without magic; attacks against have disadvantage; their attacks have advantage."@,
            ConditionType::Paralyzed => "Incapacitated; can't move/speak; auto fail Str/Dex saves; attacks have advantage and crit within 5 ft."@,
            ConditionType::Petrified => "Transformed to stone; incapacitated; attacks have advantage; resists all damage; immune to poison/disease."@,
            ConditionType::Poisoned => "Disadvantage on attack rolls and ability checks."@,
            ConditionType::Prone => "Only crawl; attacks vs them have advantage if within 5 ft, otherwise disadvantage; their attacks have disadvantage."@,
            ConditionType::Restrained => "Speed 0; attacks vs have advantage; their attacks have disadvantage; Dex saves at disadvantage."@,
            ConditionType::Stunned => "Incapacitated; can't move; can speak falteringly; auto fail Str/Dex saves; attacks have advantage."@,
            ConditionType::Unconscious => "Incapacitated; drops prone; drops what holds; auto fail Str/Dex saves; attacks have advantage and crit within 5 ft."@,
        }
    }

    pub fn description(&self) -> (r: &'static str)
        ensures
            r@ == self.spec_description(),
    {
        match self {
            ConditionType::Blinded => "Automatically fails sight-based checks; attack rolls against have advantage; their attacks have disadvantage.",
            ConditionType::Charmed => "Can't attack charmer; charmer has advantage on social checks.",
            ConditionType::Deafened => "Automatically fails hearing-based checks.",
            ConditionType::Frightened => "Disadvantage on ability checks/attacks while source in sight; can't willingly move closer to source.",
            ConditionType::Grappled => "Speed becomes 0; ends if grappler is incapacitated or moved away.",
            ConditionType::Incapacitated => "Can't take actions or reactions.",
            ConditionType::Invisible => "Can't be seen without magic; attacks against have disadvantage; their attacks have advantage.",
            ConditionType::Paralyzed => "Incapacitated; can't move/speak; auto fail Str/Dex saves; attacks have advantage and crit within 5 ft.",
            ConditionType::Petrified => "Transformed to stone; incapacitated; attacks have advantage; resists all damage; immune to poison/disease.",
            ConditionType::Poisoned => "Disadvantage on attack rolls and ability checks.",
            ConditionType::Prone => "Only crawl; attacks vs them have advantage if within 5 ft, otherwise disadvantage; their attacks have disadvantage.",
            ConditionType::Restrained => "Speed 0; attacks vs have advantage; their attacks have disadvantage; Dex saves at disadvantage.",
            ConditionType::Stunned => "Incapacitated; can't move; can speak falteringly; auto fail Str/Dex saves; attacks have advantage.",
            ConditionType::Unconscious => "Incapacitated; drops prone; drops what holds; auto fail Str/Dex saves; attacks have advantage and crit within 5 ft.",
        }
    }

    /// Concise mechanical-effects summary for quick combat reference.
    pub open spec fn spec_mechanical_effects(self) -> Seq<char> {
        match self {
            ConditionType::Blinded => "Attacks: disadv; Attacks vs: adv; Fails sight checks"@,
            ConditionType::Charmed => "Can't attack charmer; Charmer: adv on social"@,
            ConditionType::Deafened => "Fails hearing checks"@,
            ConditionType::Frightened => "Attacks/checks: disadv; Can't move closer"@,
            ConditionType::Grappled => "Speed: 0"@,
            ConditionType::Incapacitated => "No actions/reactions"@,
            ConditionType::Invisible => "Attacks: adv; Attacks vs: disadv"@,
            ConditionType::Paralyzed => "Attacks vs: adv + crit (5ft); Fails STR/DEX saves"@,
            ConditionType::Petrified => "Attacks vs: adv; Resist all damage"@,
            ConditionType::Poisoned => "Attacks/checks: disadv"@,
            ConditionType::Prone => "Attacks vs: adv (melee 5ft), disadv (ranged); Attacks: disadv"@,
            ConditionType::Restrained => "Speed: 0; Attacks vs: adv; Attacks: disadv; DEX saves: disadv"@,
            ConditionType::Stunned => "Attacks vs: adv; Fails STR/DEX saves"@,
            ConditionType::Unconscious => "Prone; Attacks vs: adv + crit (5ft); Fails STR/DEX saves"@,
        }
    }

    pub fn mechanical_effects(&self) -> (r: &'static str)
        ensures
            r@ == self.spec_mechanical_effects(),
    {
        match self {
            ConditionType::Blinded => "Attacks: disadv; Attacks vs: adv; Fails sight checks",
            ConditionType::Charmed => "Can't attack charmer; Charmer: adv on social",
            ConditionType::Deafened => "Fails hearing checks",
            ConditionType::Frightened => "Attacks/checks: disadv; Can't move closer",
            ConditionType::Grappled => "Speed: 0",
            ConditionType::Incapacitated => "No actions/reactions",
            ConditionType::Invisible => "Attacks: adv; Attacks vs: disadv",
            ConditionType::Paralyzed => "Attacks vs: adv + crit (5ft); Fails STR/DEX saves",
            ConditionType::Petrified => "Attacks vs: adv; Resist all damage",
            ConditionType::Poisoned => "Attacks/checks: disadv",
            ConditionType::Prone => "Attacks vs: adv (melee 5ft), disadv (ranged); Attacks: disadv",
            ConditionType::Restrained => "Speed: 0; Attacks vs: adv; Attacks: disadv; DEX saves: disadv",
            ConditionType::Stunned => "Attacks vs: adv; Fails STR/DEX saves",
            ConditionType::Unconscious => "Prone; Attacks vs: adv + crit (5ft); Fails STR/DEX saves",
        }
    }
}

/// One round of end-of-turn book-keeping for a duration counter: a timed
/// duration ticks down, reaching zero flips to the expiry sentinel, an
/// indefinite duration (zero at creation) never moves.
pub open spec fn tick(d: int) -> int {
    if d > 0 {
        if d == 1 {
            -1
        } else {
            d - 1
        }
    } else {
        d
    }
}

/// A timed condition on one combatant. A positive duration counts down
/// once per round; zero means indefinite; negative marks expiry.
#[derive(Debug, Clone)]
pub struct StatusEffect {
    pub condition: ConditionType,
    pub duration: i32,
    pub source: Option<String>,
}

impl StatusEffect {
    pub fn new(condition: ConditionType, duration: i32, source: Option<String>) -> (r: Self)
        ensures
            r.condition == condition,
            r.duration == duration,
            r.source == source,
    {
        Self { condition, duration, source }
    }

    pub fn decrement_duration(&mut self)
        ensures
            final(self).duration == tick(old(self).duration as int),
            final(self).condition == old(self).condition,
            final(self).source == old(self).source,
    {
        if self.duration > 0 {
            self.duration -= 1;
            if self.duration == 0 {
                self.duration = -1;
            }
        }
    }

    pub fn is_expired(&self) -> (r: bool)
        ensures
            r == (self.duration < 0),
    {
        self.duration < 0
    }
}

/// `tick` applied `n` times: the whole life of a duration counter over
/// `n` rounds of book-keeping.
pub open spec fn tick_n(d: int, n: nat) -> int
    decreases n,
{
    if n == 0 {
        d
    } else {
        tick_n(tick(d), (n - 1) as nat)
    }
}

/// An expired duration stays exactly where it is.
pub proof fn lemma_tick_n_stays_expired(d: int, n: nat)
    requires
        d < 0,
    ensures
        tick_n(d, n) == d,
    decreases n,
{
    if n > 0 {
        lemma_tick_n_stays_expired(d, (n - 1) as nat);
    }
}

/// An indefinite effect (duration zero) never expires, however many
/// rounds pass; a two-round effect reaches the expiry sentinel after two
/// rounds and stays there.
pub proof fn lemma_duration_life_cycle(d: int, n: nat)
    ensures
        d == 0 ==> tick_n(d, n) == 0,
        d == 2 && n >= 2 ==> tick_n(d, n) == -1,
    decreases n,
{
    if n > 0 {
        lemma_duration_life_cycle(tick(d), (n - 1) as nat);
        if d == 2 && n >= 2 {
            assert(tick(2) == 1);
            lemma_tick_n_stays_expired(-1, (n - 2) as nat);
            assert(tick_n(1, (n - 1) as nat) == tick_n(-1, (n - 2) as nat));
        }
    }
}

} // verus!
