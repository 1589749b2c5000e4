use vstd::prelude::*;

verus! {

/// Upper bound of the four need attributes.
pub const MAX_STAT: i32 = 100;

/// Seconds that add one point of hunger.
pub const HUNGER_PERIOD: u64 = 60;

/// Seconds that take one point of happiness (and of health, when it suffers).
pub const HAPPINESS_PERIOD: u64 = 120;

/// Seconds that take one point of energy.
pub const ENERGY_PERIOD: u64 = 90;

/// A gap longer than this many seconds makes the pet one year older.
pub const AGE_PERIOD: u64 = 3600;

/// The pet: its identity, its four needs in `0..=100`, its age and the
/// epoch second of its last decay.
pub struct Pet {
    pub name: String,
    pub kind: String,
    pub hunger: i32,
    pub happiness: i32,
    pub energy: i32,
    pub health: i32,
    pub age: u32,
    pub last_update: u64,
}

/// Whether a need lies in `0..=100`.
pub open spec fn in_range(x: int) -> bool {
    0 <= x <= MAX_STAT
}

/// The smaller of two integers.
pub open spec fn min_int(a: int, b: int) -> int {
    if a <= b { a } else { b }
}

/// The larger of two integers.
pub open spec fn max_int(a: int, b: int) -> int {
    if a >= b { a } else { b }
}

/// Whole seconds from `last` to `now`; a clock that went back counts as no time.
pub open spec fn elapsed_since(last: u64, now: u64) -> int {
    if now >= last { now - last } else { 0 }
}

/// Age after one more year, held at the top of `u32`.
pub open spec fn next_age(age: u32) -> u32 {
    if age < u32::MAX { (age + 1) as u32 } else { age }
}

impl Pet {
    /// The range invariant: a non-empty name and every need in `0..=100`.
    pub open spec fn wf(&self) -> bool {
        &&& self.name@.len() > 0
        &&& in_range(self.hunger as int)
        &&& in_range(self.happiness as int)
        &&& in_range(self.energy as int)
        &&& in_range(self.health as int)
    }

    /// The pet `p` becomes after decay at epoch second `now`.
    pub open spec fn decayed(p: Pet, now: u64) -> Pet {
        let e = elapsed_since(p.last_update, now);
        let hunger = min_int(MAX_STAT as int, p.hunger + e / (HUNGER_PERIOD as int));
        let happiness = max_int(0, p.happiness - e / (HAPPINESS_PERIOD as int));
        let energy = max_int(0, p.energy - e / (ENERGY_PERIOD as int));
        let health = if hunger >= 80 || happiness <= 20 {
            max_int(0, p.health - e / (HAPPINESS_PERIOD as int))
        } else {
            p.health as int
        };
        Pet {
            name: p.name,
            kind: p.kind,
            hunger: hunger as i32,
            happiness: happiness as i32,
            energy: energy as i32,
            health: health as i32,
            age: if e > AGE_PERIOD { next_age(p.age) } else { p.age },
            last_update: if now >= p.last_update { now } else { p.last_update },
        }
    }

    /// Whether decay at `now` brings `p` to a new age that is a multiple of five.
    pub open spec fn is_milestone(p: Pet, now: u64) -> bool {
        &&& elapsed_since(p.last_update, now) > AGE_PERIOD
        &&& p.age < u32::MAX
        &&& (p.age + 1) % 5 == 0
    }

    /// The pet `p` becomes after a meal.
    pub open spec fn fed(p: Pet) -> Pet {
        Pet { hunger: max_int(0, p.hunger - 10) as i32, ..p }
    }

    /// Whether the pet has the energy to play.
    pub open spec fn can_play(p: Pet) -> bool {
        p.energy >= 10
    }

    /// The pet `p` becomes after an attempt to play.
    pub open spec fn played(p: Pet) -> Pet {
        if Self::can_play(p) {
            Pet {
                happiness: min_int(100, p.happiness + 15) as i32,
                energy: (p.energy - 10) as i32,
                ..p
            }
        } else {
            p
        }
    }

    /// The pet `p` becomes after a sleep.
    pub open spec fn slept(p: Pet) -> Pet {
        Pet {
            energy: min_int(100, p.energy + 20) as i32,
            hunger: min_int(100, p.hunger + 5) as i32,
            ..p
        }
    }

    /// A new pet at epoch second `now`.
    pub fn new_at(name: String, kind: String, now: u64) -> (r: Pet)
        requires
            name@.len() > 0,
        ensures
            r.wf(),
            r.name@ == name@,
            r.kind@ == kind@,
            r.hunger == 50,
            r.happiness == 50,
            r.energy == 50,
            r.health == 100,
            r.age == 0,
            r.last_update == now,
    {
        Pet {
            name,
            kind,
            hunger: 50,
            happiness: 50,
            energy: 50,
            health: MAX_STAT,
            age: 0,
            last_update: now,
        }
    }

    /// One more year of age; returns whether the new age is a multiple of five.
    fn age_up(&mut self) -> (milestone: bool)
        ensures
            *final(self) == (Pet { age: next_age(old(self).age), ..*old(self) }),
            milestone == (old(self).age < u32::MAX && (old(self).age + 1) % 5 == 0),
    {
        if self.age < u32::MAX {
            self.age = self.age + 1;
            self.age % 5 == 0
        } else {
            false
        }
    }

    /// Applies the time-based decay for epoch second `now`. Returns whether the
    /// pet reached an age that is a multiple of five.
    pub fn decay_at(&mut self, now: u64) -> (milestone: bool)
        requires
            old(self).wf(),
        ensures
            final(self).wf(),
            *final(self) == Self::decayed(*old(self), now),
            milestone == Self::is_milestone(*old(self), now),
    {
        let elapsed: u64 = if now >= self.last_update { now - self.last_update } else { 0 };
        let gain: u64 = elapsed / HUNGER_PERIOD;
        self.hunger = if gain >= 100 { MAX_STAT } else if self.hunger + gain as i32 >= MAX_STAT {
            MAX_STAT
        } else {
            self.hunger + gain as i32
        };
        let sad: u64 = elapsed / HAPPINESS_PERIOD;
        self.happiness = if sad >= 100 || self.happiness - sad as i32 <= 0 {
            0
        } else {
            self.happiness - sad as i32
        };
        let tired: u64 = elapsed / ENERGY_PERIOD;
        self.energy = if tired >= 100 || self.energy - tired as i32 <= 0 {
            0
        } else {
            self.energy - tired as i32
        };
        if self.hunger >= 80 || self.happiness <= 20 {
            self.health = if sad >= 100 || self.health - sad as i32 <= 0 {
                0
            } else {
                self.health - sad as i32
            };
        }
        if now >= self.last_update {
            self.last_update = now;
        }
        if elapsed > AGE_PERIOD {
            self.age_up()
        } else {
            false
        }
    }

    /// A new pet with the starting needs, stamped with the current epoch second
    /// (second zero where the clock reads before the epoch).
    pub fn new(name: String, kind: String) -> (r: Pet)
        requires
            name@.len() > 0,
        ensures
            r.wf(),
            r.name@ == name@,
            r.kind@ == kind@,
            r.hunger == 50,
            r.happiness == 50,
            r.energy == 50,
            r.health == 100,
            r.age == 0,
    {
        let now: u64 = match clock_seconds() {
            Some(t) => t,
            None => 0,
        };
        Self::new_at(name, kind, now)
    }

    /// Applies the time-based decay for the current time; a clock that cannot
    /// be read counts as no time passed. Returns whether the pet reached an age
    /// that is a multiple of five.
    pub fn decay_stats(&mut self) -> (milestone: bool)
        requires
            old(self).wf(),
        ensures
            final(self).wf(),
            final(self).last_update >= old(self).last_update,
            *final(self) == Self::decayed(*old(self), final(self).last_update),
            milestone == Self::is_milestone(*old(self), final(self).last_update),
    {
        let now: u64 = match clock_seconds() {
            Some(t) => t,
            None => self.last_update,
        };
        self.decay_at(now)
    }

    /// Eats: hunger drops by ten, not below zero.
    pub fn feed(&mut self)
        requires
            old(self).wf(),
        ensures
            final(self).wf(),
            *final(self) == Self::fed(*old(self)),
    {
        self.hunger = if self.hunger >= 10 { self.hunger - 10 } else { 0 };
    }

    /// Plays when energy is at least ten: happiness up by fifteen (to at most
    /// 100), energy down by ten. Otherwise nothing changes. Returns whether it
    /// played.
    pub fn play(&mut self) -> (played: bool)
        requires
            old(self).wf(),
        ensures
            final(self).wf(),
            played == Self::can_play(*old(self)),
            *final(self) == Self::played(*old(self)),
    {
        if self.energy >= 10 {
            self.happiness = if self.happiness + 15 >= MAX_STAT { MAX_STAT } else { self.happiness + 15 };
            self.energy = self.energy - 10;
            true
        } else {
            false
        }
    }

    /// Sleeps: energy up by twenty and hunger up by five, each to at most 100.
    pub fn sleep(&mut self)
        requires
            old(self).wf(),
        ensures
            final(self).wf(),
            *final(self) == Self::slept(*old(self)),
    {
        self.energy = if self.energy + 20 >= MAX_STAT { MAX_STAT } else { self.energy + 20 };
        self.hunger = if self.hunger + 5 >= MAX_STAT { MAX_STAT } else { self.hunger + 5 };
    }

    /// The frames to show, in order, while the pet does `activity`.
    pub fn show_animation(&self, activity: Activity) -> (r: Vec<&'static str>)
        ensures
            views_of(r@) == frames_of(activity),
    {
        let r = match activity {
            Activity::Eating => vec!["😋", "🍗", "😋", "🍖", "😋"],
            Activity::Playing => vec!["🐾", "🎾", "🐾", "🎾", "🐾"],
            Activity::Sleeping => vec!["💤", "😴", "💤", "😴"],
        };
        assert(views_of(r@) =~= frames_of(activity));
        r
    }

    /// A pet from saved values, or `None` where they break the range invariant.
    pub fn from_record(
        name: String,
        kind: String,
        hunger: i32,
        happiness: i32,
        energy: i32,
        health: i32,
        age: u32,
        last_update: u64,
    ) -> (r: Option<Pet>)
        ensures
            r.is_some() == (name@.len() > 0 && in_range(hunger as int) && in_range(
                happiness as int,
            ) && in_range(energy as int) && in_range(health as int)),
            r matches Some(p) ==> {
                &&& p.wf()
                &&& p.name@ == name@
                &&& p.kind@ == kind@
                &&& p.hunger == hunger
                &&& p.happiness == happiness
                &&& p.energy == energy
                &&& p.health == health
                &&& p.age == age
                &&& p.last_update == last_update
            },
    {
        let ok = name.as_str().unicode_len() > 0 && 0 <= hunger && hunger <= MAX_STAT && 0 <= happiness
            && happiness <= MAX_STAT && 0 <= energy && energy <= MAX_STAT && 0 <= health
            && health <= MAX_STAT;
        if ok {
            Some(Pet { name, kind, hunger, happiness, energy, health, age, last_update })
        } else {
            None
        }
    }

    /// The mood, by the first rule that holds: happy, tired, hungry, neutral.
    pub fn get_mood(&self) -> (m: Mood)
        ensures
            m == mood_of(*self),
    {
        if self.happiness > 80 {
            Mood::Happy
        } else if self.energy < 20 {
            Mood::Tired
        } else if self.hunger > 80 {
            Mood::Hungry
        } else {
            Mood::Neutral
        }
    }
}

/// How the pet feels, derived from its needs.
#[derive(Clone, Copy, Debug, PartialEq, Eq, Structural)]
pub enum Mood {
    Happy,
    Tired,
    Hungry,
    Neutral,
}

/// The mood rules in priority order: happiness above 80, then energy below
/// 20, then hunger above 80.
pub open spec fn mood_of(p: Pet) -> Mood {
    if p.happiness > 80 {
        Mood::Happy
    } else if p.energy < 20 {
        Mood::Tired
    } else if p.hunger > 80 {
        Mood::Hungry
    } else {
        Mood::Neutral
    }
}

impl Mood {
    /// The text shown for the mood.
    pub fn label(&self) -> (r: &'static str)
        ensures
            r@ == mood_label(*self),
    {
        match self {
            Mood::Happy => "Happy 😊",
            Mood::Tired => "Tired 😴",
            Mood::Hungry => "Hungry 😋",
            Mood::Neutral => "Neutral 😐",
        }
    }
}

/// The text of each mood.
pub open spec fn mood_label(m: Mood) -> Seq<char> {
    match m {
        Mood::Happy => "Happy 😊"@,
        Mood::Tired => "Tired 😴"@,
        Mood::Hungry => "Hungry 😋"@,
        Mood::Neutral => "Neutral 😐"@,
    }
}

/// What the pet is shown doing.
#[derive(Clone, Copy, Debug, PartialEq, Eq, Structural)]
pub enum Activity {
    Eating,
    Playing,
    Sleeping,
}

/// The frames of each activity's animation, in order.
pub open spec fn frames_of(a: Activity) -> Seq<Seq<char>> {
    match a {
        Activity::Eating => seq!["😋"@, "🍗"@, "😋"@, "🍖"@, "😋"@],
        Activity::Playing => seq!["🐾"@, "🎾"@, "🐾"@, "🎾"@, "🐾"@],
        Activity::Sleeping => seq!["💤"@, "😴"@, "💤"@, "😴"@],
    }
}

/// The text of each string in a sequence.
pub open spec fn views_of(v: Seq<&'static str>) -> Seq<Seq<char>> {
    v.map_values(|s: &'static str| s@)
}


/// Relies on `SystemTime::elapsed` on `UNIX_EPOCH`: the whole seconds since the
/// epoch, or `None` where the clock reads before it. The value depends on the
/// time, so nothing is promised of it.
#[verifier::external_body]
fn clock_seconds() -> (r: Option<u64>) {
    match std::time::UNIX_EPOCH.elapsed() {
        Ok(d) => Some(d.as_secs()),
        Err(_) => None,
    }
}

} // verus!
