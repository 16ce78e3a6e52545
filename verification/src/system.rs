//! The particle system: all particles, the frame clock's window, and the one
//! step that a frame takes.
//!
//! A frame is computed here and drawn elsewhere. `step` takes what happened
//! since the last frame, a trigger if there was one and the raw frame time, and
//! returns what is to be drawn: first every shadow, then every body, so that no
//! shadow covers a body.

use vstd::prelude::*;
use crate::config::Config;
use crate::frame_time::{calculate_correct_frametime, pushed, smoothed};
use crate::particle::{Particle, Vec2};
use crate::render::Circle;
use crate::spawn::{accepted, burst, refusal, spawn_burst, SpawnDraw, SpawnError};

verus! {

/// A request for one burst.
#[derive(Debug)]
pub struct Trigger {
    /// Where the burst starts.
    pub origin: Vec2,
    /// What was drawn at random, one entry for each particle.
    pub draws: Vec<SpawnDraw>,
}

/// What one step hands to the renderer.
#[derive(Debug)]
pub struct Frame {
    /// The time step that the particles were advanced by.
    pub dt: i64,
    /// The shadow of every particle, to be drawn first.
    pub shadows: Vec<Circle>,
    /// The body of every particle, in the same order, to be drawn on top.
    pub bodies: Vec<Circle>,
    /// How many particles are left after the step.
    pub count: usize,
    /// Why the trigger's burst was refused, if it was.
    pub refused: Option<SpawnError>,
}

/// A particle system as a value: what `ParticleSystem` stands for.
pub struct State {
    pub cfg: Config,
    pub particles: Seq<Particle>,
    pub window: Seq<i64>,
}

/// The particles that a step creates: the burst of an accepted trigger, and
/// nothing without a trigger or for a refused one.
pub open spec fn spawned(trigger: Option<Trigger>, cfg: Config) -> Seq<Particle> {
    match trigger {
        Some(t) => if accepted(t.draws@, cfg) {
            burst(t.origin, t.draws@, cfg)
        } else {
            Seq::empty()
        },
        None => Seq::empty(),
    }
}

/// `refused` is what a step reports of `trigger`: nothing where there is no
/// trigger or its draws are accepted, else the reason for which they are not.
pub open spec fn reported(
    refused: Option<SpawnError>,
    trigger: Option<Trigger>,
    cfg: Config,
) -> bool {
    match trigger {
        Some(t) => match refused {
            Some(e) => refusal(t.draws@, cfg, e),
            None => accepted(t.draws@, cfg),
        },
        None => refused is None,
    }
}

/// The test that a particle passes to stay in the system: it has lifetime left.
pub open spec fn has_lifetime() -> spec_fn(Particle) -> bool {
    |p: Particle| p.lifetime > 0
}

impl State {
    /// Every particle of the step, created ones last, after its update by the
    /// smoothed time step. These are the particles that the frame shows.
    pub open spec fn shown(self, trigger: Option<Trigger>, raw_dt: i64) -> Seq<Particle> {
        let dt = smoothed(self.window, raw_dt);
        let all = self.particles + spawned(trigger, self.cfg);
        Seq::new(all.len(), |i: int| all[i].stepped(dt, self.cfg))
    }

    /// The shadows of the particles shown, in their order.
    pub open spec fn shadows(self, trigger: Option<Trigger>, raw_dt: i64) -> Seq<Circle> {
        let shown = self.shown(trigger, raw_dt);
        Seq::new(shown.len(), |i: int| shown[i].shadow(self.cfg))
    }

    /// The bodies of the particles shown, in their order.
    pub open spec fn bodies(self, trigger: Option<Trigger>, raw_dt: i64) -> Seq<Circle> {
        let shown = self.shown(trigger, raw_dt);
        Seq::new(shown.len(), |i: int| shown[i].body(self.cfg))
    }

    /// The system after the step: the particles shown that have lifetime left,
    /// in their order, and the window that the raw frame time has entered.
    pub open spec fn stepped(self, trigger: Option<Trigger>, raw_dt: i64) -> State {
        State {
            cfg: self.cfg,
            particles: self.shown(trigger, raw_dt).filter(has_lifetime()),
            window: pushed(self.window, raw_dt),
        }
    }

    /// The system after one step without a trigger for each entry of
    /// `raw_dts`, in order.
    pub open spec fn idled(self, raw_dts: Seq<i64>) -> State
        decreases raw_dts.len(),
    {
        if raw_dts.len() == 0 {
            self
        } else {
            self.idled(raw_dts.drop_last()).stepped(None, raw_dts.last())
        }
    }
}

proof fn lemma_filter_next(s: Seq<Particle>, k: int)
    requires
        0 <= k < s.len(),
    ensures
        s.take(k + 1).filter(has_lifetime()) == if s[k].lifetime > 0 {
            s.take(k).filter(has_lifetime()).push(s[k])
        } else {
            s.take(k).filter(has_lifetime())
        },
{
    reveal(Seq::filter);
    assert(s.take(k + 1).drop_last() == s.take(k));
}

/// A system of particles with its frame clock.
pub struct ParticleSystem {
    cfg: Config,
    particles: Vec<Particle>,
    window: Vec<i64>,
}

impl View for ParticleSystem {
    type V = State;

    closed spec fn view(&self) -> State {
        State { cfg: self.cfg, particles: self.particles@, window: self.window@ }
    }
}

impl ParticleSystem {
    #[verifier::type_invariant]
    spec fn inv(self) -> bool {
        self.cfg.wf()
    }

    /// An empty system under `cfg`, if render data can be derived under it.
    pub fn new(cfg: Config) -> (r: Option<ParticleSystem>)
        ensures
            r is Some <==> cfg.wf(),
            r matches Some(system) ==> system@ == (State {
                cfg,
                particles: Seq::empty(),
                window: Seq::empty(),
            }),
    {
        if cfg.is_valid() {
            Some(ParticleSystem { cfg, particles: Vec::new(), window: Vec::new() })
        } else {
            None
        }
    }

    /// The configuration.
    pub fn config(&self) -> (cfg: Config)
        ensures
            cfg == self@.cfg,
            cfg.wf(),
    {
        proof {
            use_type_invariant(self);
        }
        self.cfg
    }

    /// The number of particles.
    pub fn len(&self) -> (n: usize)
        ensures
            n == self@.particles.len(),
    {
        self.particles.len()
    }

    /// Takes one frame's step.
    ///
    /// In this order: the trigger's burst, if there is a trigger and its draws
    /// are accepted, joins the particles; the raw frame time enters the window
    /// and is smoothed; every particle is updated by the smoothed time step and
    /// its shadow and body are recorded; the particles without lifetime left are
    /// removed. A refused burst is reported in the frame and creates nothing; the
    /// step is taken all the same.
    pub fn step(&mut self, trigger: Option<Trigger>, raw_dt: i64) -> (frame: Frame)
        ensures
            final(self)@ == old(self)@.stepped(trigger, raw_dt),
            frame.dt == smoothed(old(self)@.window, raw_dt),
            frame.shadows@ == old(self)@.shadows(trigger, raw_dt),
            frame.bodies@ == old(self)@.bodies(trigger, raw_dt),
            frame.count == final(self)@.particles.len(),
            frame.count <= old(self)@.particles.len() + spawned(trigger, old(self)@.cfg).len(),
            forall|i: int|
                0 <= i < frame.count ==> (#[trigger] final(self)@.particles[i]).lifetime > 0,
            reported(frame.refused, trigger, old(self)@.cfg),
    {
        proof {
            use_type_invariant(&*self);
        }
        let cfg = self.cfg;
        let ghost before = self@;
        let mut particles: Vec<Particle> = Vec::new();
        let mut window: Vec<i64> = Vec::new();
        core::mem::swap(&mut self.particles, &mut particles);
        core::mem::swap(&mut self.window, &mut window);

        let mut refused: Option<SpawnError> = None;
        match &trigger {
            Some(t) => match spawn_burst(t.origin, &t.draws, &cfg) {
                Ok(fresh) => {
                    let mut fresh = fresh;
                    particles.append(&mut fresh);
                },
                Err(e) => {
                    refused = Some(e);
                },
            },
            None => {},
        }
        let ghost all = before.particles + spawned(trigger, cfg);
        assert(particles@ == all);

        let dt = calculate_correct_frametime(&mut window, raw_dt);
        let ghost shown = before.shown(trigger, raw_dt);

        let n = particles.len();
        let mut shadows: Vec<Circle> = Vec::new();
        let mut i: usize = 0;
        while i < n
            invariant
                i <= n,
                n == all.len(),
                n == shown.len(),
                particles.len() == n,
                cfg.wf(),
                forall|k: int| 0 <= k < n ==> shown[k] == all[k].stepped(dt, cfg),
                forall|k: int| 0 <= k < i ==> particles[k] == shown[k],
                forall|k: int| i <= k < n ==> particles[k] == all[k],
                shadows.len() == i,
                forall|k: int| 0 <= k < i ==> shadows[k] == shown[k].shadow(cfg),
            decreases n - i,
        {
            let mut p = particles[i];
            p.update(dt, &cfg);
            shadows.push(p.shadow_circle(&cfg));
            particles.set(i, p);
            i += 1;
        }
        assert(particles@ == shown);

        let mut bodies: Vec<Circle> = Vec::new();
        let mut j: usize = 0;
        while j < n
            invariant
                j <= n,
                particles@ == shown,
                n == shown.len(),
                cfg.wf(),
                bodies.len() == j,
                forall|k: int| 0 <= k < j ==> bodies[k] == shown[k].body(cfg),
            decreases n - j,
        {
            bodies.push(particles[j].body_circle(&cfg));
            j += 1;
        }

        let mut kept: Vec<Particle> = Vec::new();
        let mut k: usize = 0;
        assert(shown.take(0) == Seq::<Particle>::empty());
        proof {
            reveal(Seq::filter);
        }
        while k < n
            invariant
                k <= n,
                particles@ == shown,
                n == shown.len(),
                kept@ == shown.take(k as int).filter(has_lifetime()),
            decreases n - k,
        {
            let p = particles[k];
            proof {
                lemma_filter_next(shown, k as int);
            }
            if p.alive() {
                kept.push(p);
            }
            k += 1;
        }
        assert(shown.take(n as int) == shown);
        proof {
            shown.lemma_filter_len(has_lifetime());
            assert forall|i: int| 0 <= i < kept.len() implies (#[trigger] kept[i]).lifetime
                > 0 by {
                shown.lemma_filter_pred(has_lifetime(), i);
            }
        }
        let count = kept.len();
        self.particles = kept;
        self.window = window;
        Frame { dt, shadows, bodies, count, refused }
    }

    /// The particles, oldest burst first.
    pub fn particles(&self) -> (particles: &Vec<Particle>)
        ensures
            particles@ == self@.particles,
    {
        &self.particles
    }

    /// The raw frame times that the frame clock remembers, oldest first.
    pub fn window(&self) -> (window: &Vec<i64>)
        ensures
            window@ == self@.window,
    {
        &self.window
    }
}

/// A step adds no particle but those of an accepted burst: without a trigger,
/// or where the burst is refused, the particles do not become more.
pub proof fn lemma_grows_only_by_burst(s: State, trigger: Option<Trigger>, raw_dt: i64)
    ensures
        s.stepped(trigger, raw_dt).particles.len() <= s.particles.len()
            + spawned(trigger, s.cfg).len(),
        trigger is None ==> s.stepped(trigger, raw_dt).particles.len() <= s.particles.len(),
{
    s.shown(trigger, raw_dt).lemma_filter_len(has_lifetime());
}

/// Over any number of steps without a trigger the particles do not become
/// more, whatever the frame times.
pub proof fn lemma_idle_never_grows(s: State, raw_dts: Seq<i64>)
    ensures
        s.idled(raw_dts).particles.len() <= s.particles.len(),
    decreases raw_dts.len(),
{
    if raw_dts.len() > 0 {
        lemma_idle_never_grows(s, raw_dts.drop_last());
        lemma_grows_only_by_burst(s.idled(raw_dts.drop_last()), None, raw_dts.last());
    }
}

/// A step leaves exactly the particles that have lifetime left after their
/// update: each particle that is left has, and the system is empty after the
/// step if and only if no particle shown has.
pub proof fn lemma_leaves_the_living(s: State, trigger: Option<Trigger>, raw_dt: i64)
    ensures
        forall|i: int|
            0 <= i < s.stepped(trigger, raw_dt).particles.len()
                ==> (#[trigger] s.stepped(trigger, raw_dt).particles[i]).lifetime > 0,
        s.stepped(trigger, raw_dt).particles.len() == 0 <==> forall|i: int|
            0 <= i < s.shown(trigger, raw_dt).len()
                ==> (#[trigger] s.shown(trigger, raw_dt)[i]).lifetime <= 0,
{
    let shown = s.shown(trigger, raw_dt);
    let left = shown.filter(has_lifetime());
    assert forall|i: int| 0 <= i < left.len() implies (#[trigger] left[i]).lifetime > 0 by {
        shown.lemma_filter_pred(has_lifetime(), i);
    }
    if forall|i: int| 0 <= i < shown.len() ==> (#[trigger] shown[i]).lifetime <= 0 {
        shown.lemma_all_neg_filter_empty(has_lifetime());
    }
    if left.len() == 0 {
        assert forall|i: int| 0 <= i < shown.len() implies (#[trigger] shown[i]).lifetime
            <= 0 by {
            if shown[i].lifetime > 0 {
                shown.lemma_filter_contains(has_lifetime(), i);
            }
        }
    }
}

} // verus!
