//! The configuration of a server and the state that its requests share.

use vstd::prelude::*;
use crate::counters::ApateCounters;
use crate::deceit::{Deceit, DeceitBuilder};
use crate::jinja::MiniJinjaState;
use crate::processors::ApateProcessor;
use crate::rhai::{clone_scripts, scripts_view, RhaiScript, RhaiState};
use crate::specs::{unique_ids, ApateSpecs};
use crate::specs::SpecsError;
use crate::text::str_eq;
use vstd::string::StringSliceAdditionalSpecFns;

verus! {

/// The port on which a server listens where none is given.
pub const DEFAULT_PORT: u16 = 8228;

/// The log filter of a server where none is given.
pub const DEFAULT_RUST_LOG: &'static str = "info,apate=debug";

/// What a server is started with.
pub struct ApateConfig {
    pub port: u16,
    /// The most operations that one run of a script may take; 0 stands for
    /// the default.
    pub script_operations: u64,
    pub processors: Vec<ApateProcessor>,
    pub specs: ApateSpecs,
}

impl Default for ApateConfig {
    fn default() -> (r: Self)
        ensures
            r.port == DEFAULT_PORT,
            r.processors@.len() == 0,
            r.specs.scripts@.len() == 0,
            r.specs.deceit@.len() == 0,
    {
        ApateConfig {
            port: DEFAULT_PORT,
            script_operations: 0,
            specs: ApateSpecs::default(),
            processors: Vec::new(),
        }
    }
}

/// A short name for [`ApateConfig`].
pub type AppConfig = ApateConfig;

/// A short name for [`ApateConfigBuilder`].
pub type AppConfigBuilder = ApateConfigBuilder;

/// Why no configuration could be made.
#[derive(Debug, PartialEq, Eq, Structural, Clone, Copy)]
pub enum ConfigError {
    /// The text given for the port is no number from 0 to 65535.
    BadPort,
    /// The document is not valid.
    Specs(SpecsError),
}

/// The number that a text of decimal digits stands for.
pub open spec fn digits_value(digits: Seq<u8>) -> nat
    decreases digits.len(),
{
    if digits.len() == 0 {
        0
    } else {
        digits_value(digits.drop_last()) * 10 + (digits.last() - 48) as nat
    }
}

/// Whether every byte is a decimal digit.
pub open spec fn all_digits(digits: Seq<u8>) -> bool {
    forall|i: int| 0 <= i < digits.len() ==> 48 <= #[trigger] digits[i] <= 57
}

/// The port that a text stands for: decimal digits, at least one, with `+`
/// allowed before them, that give a number up to 65535.
pub open spec fn port_of(text: Seq<u8>) -> Option<u16> {
    let digits = if text.len() > 0 && text[0] == 43 {
        text.subrange(1, text.len() as int)
    } else {
        text
    };
    if digits.len() > 0 && all_digits(digits) && digits_value(digits) <= u16::MAX {
        Some(digits_value(digits) as u16)
    } else {
        None
    }
}

proof fn lemma_digits_grow(digits: Seq<u8>, k: int)
    requires
        all_digits(digits),
        0 <= k <= digits.len(),
    ensures
        digits_value(digits.subrange(0, k)) <= digits_value(digits),
    decreases digits.len() - k,
{
    if k < digits.len() {
        lemma_digits_grow(digits, k + 1);
        let next = digits.subrange(0, k + 1);
        assert(next.drop_last() =~= digits.subrange(0, k));
    } else {
        assert(digits.subrange(0, k) =~= digits);
    }
}

/// Reads a port from a text.
pub fn parse_port(text: &str) -> (r: Option<u16>)
    ensures
        r == port_of(text.spec_bytes()),
{
    let bytes = text.as_bytes();
    let start: usize = if bytes.len() > 0 && bytes[0] == 43 {
        1
    } else {
        0
    };
    let ghost digits = bytes@.subrange(start as int, bytes@.len() as int);
    proof {
        if start == 0 {
            assert(digits =~= bytes@);
        }
    }
    if start == bytes.len() {
        return None;
    }
    let mut value: u32 = 0;
    let mut i: usize = start;
    assert(digits.subrange(0, 0).len() == 0);
    while i < bytes.len()
        invariant
            start <= i <= bytes.len(),
            bytes@ == text.spec_bytes(),
            start == (if bytes@.len() > 0 && bytes@[0] == 43 {
                1int
            } else {
                0int
            }),
            start < bytes.len(),
            digits == bytes@.subrange(start as int, bytes@.len() as int),
            value == digits_value(digits.subrange(0, i - start)),
            value <= u16::MAX,
            forall|k: int| 0 <= k < i - start ==> 48 <= #[trigger] digits[k] <= 57,
        decreases bytes.len() - i,
    {
        let b = bytes[i];
        assert(digits[i - start] == b);
        if b < 48 || b > 57 {
            assert(!all_digits(digits));
            proof {
                if start == 0 {
                    assert(digits =~= bytes@);
                }
            }
            return None;
        }
        let ghost head = digits.subrange(0, i - start + 1);
        assert(head.drop_last() =~= digits.subrange(0, i - start));
        assert(head.last() == b);
        let d: u32 = (b - 48) as u32;
        value = value * 10 + d;
        if value > 65535 {
            proof {
                if all_digits(digits) {
                    lemma_digits_grow(digits, i - start + 1);
                }
                if start == 0 {
                    assert(digits =~= bytes@);
                }
            }
            return None;
        }
        i += 1;
    }
    proof {
        assert(digits.subrange(0, digits.len() as int) =~= digits);
        if start == 0 {
            assert(digits =~= bytes@);
        }
    }
    Some(value as u16)
}

/// The port of a server: the one given, else the one that the text from the
/// environment stands for, else [`DEFAULT_PORT`]. `None` where that text is
/// needed and stands for no port.
pub open spec fn chosen_port(port: Option<u16>, env_port: Option<Seq<u8>>) -> Option<u16> {
    match port {
        Some(p) => Some(p),
        None => match env_port {
            Some(text) => port_of(text),
            None => Some(DEFAULT_PORT),
        },
    }
}

/// A list of documents put one after the other.
pub open spec fn joined_scripts(fragments: Seq<ApateSpecs>) -> Seq<RhaiScript>
    decreases fragments.len(),
{
    if fragments.len() == 0 {
        Seq::empty()
    } else {
        joined_scripts(fragments.drop_last()) + fragments.last().scripts@
    }
}

/// The rules of a list of documents put one after the other.
pub open spec fn joined_rules(fragments: Seq<ApateSpecs>) -> Seq<Deceit>
    decreases fragments.len(),
{
    if fragments.len() == 0 {
        Seq::empty()
    } else {
        joined_rules(fragments.drop_last()) + fragments.last().deceit@
    }
}

impl ApateConfig {
    /// The configuration with the default port and an empty document.
    pub fn try_new_defaults() -> (r: Result<Self, ConfigError>)
        ensures
            r matches Ok(c) && c.port == DEFAULT_PORT && c.specs.scripts@.len() == 0
                && c.specs.deceit@.len() == 0 && c.processors@.len() == 0,
    {
        Ok(ApateConfig {
            port: DEFAULT_PORT,
            script_operations: 0,
            specs: ApateSpecs::default(),
            processors: Vec::new(),
        })
    }

    /// The configuration for a port and the fragments of a document. The
    /// port is the one given, else the one that `env_port` stands for, else
    /// the default. The fragments are put one after the other in their order.
    /// It fails where `env_port` is needed and stands for no port, and else
    /// where the document that results is not valid.
    pub fn try_new(port: Option<u16>, env_port: Option<&str>, fragments: Vec<ApateSpecs>) -> (r:
        Result<Self, ConfigError>)
        ensures
            match chosen_port(
                port,
                match env_port {
                    Some(text) => Some(text.spec_bytes()),
                    None => None,
                },
            ) {
                None => r == Err::<Self, ConfigError>(ConfigError::BadPort),
                Some(p) => match r {
                    Ok(c) => {
                        &&& c.port == p
                        &&& c.processors@.len() == 0
                        &&& c.specs.scripts@ == joined_scripts(fragments@)
                        &&& c.specs.deceit@ == joined_rules(fragments@)
                        &&& c.specs.wf()
                    },
                    Err(e) => e matches ConfigError::Specs(_) && !(unique_ids(
                        joined_scripts(fragments@),
                    ) && crate::specs::all_valid(joined_rules(fragments@))),
                },
            },
    {
        let chosen: u16 = match port {
            Some(p) => p,
            None => match env_port {
                Some(text) => match parse_port(text) {
                    Some(p) => p,
                    None => {
                        return Err(ConfigError::BadPort);
                    },
                },
                None => DEFAULT_PORT,
            },
        };
        let ghost all = fragments@;
        let mut specs = ApateSpecs::default();
        let mut rest = fragments;
        let ghost mut k: int = 0;
        assert(all.subrange(0, all.len() as int) =~= all);
        assert(specs.scripts@ =~= joined_scripts(all.subrange(0, 0)));
        assert(specs.deceit@ =~= joined_rules(all.subrange(0, 0)));
        while rest.len() > 0
            invariant
                0 <= k <= all.len(),
                rest@ == all.subrange(k, all.len() as int),
                specs.scripts@ == joined_scripts(all.subrange(0, k)),
                specs.deceit@ == joined_rules(all.subrange(0, k)),
            decreases rest.len(),
        {
            let next = rest.remove(0);
            proof {
                assert(next == all[k]);
                let head = all.subrange(0, k + 1);
                assert(head.drop_last() =~= all.subrange(0, k));
                assert(head.last() == all[k]);
                assert(rest@ =~= all.subrange(k + 1, all.len() as int));
                k = k + 1;
            }
            specs.append(next);
        }
        proof {
            assert(k == all.len());
            assert(all.subrange(0, k) =~= all);
        }
        match specs.validate() {
            Ok(()) => Ok(
                ApateConfig { port: chosen, script_operations: 0, specs, processors: Vec::new() },
            ),
            Err(reason) => Err(ConfigError::Specs(reason)),
        }
    }
}

/// What the requests of one server share: the configuration document, the
/// counters, the callbacks of the host program, and the caches of compiled
/// templates and scripts.
pub struct ApateState {
    pub specs: ApateSpecs,
    pub counters: ApateCounters,
    pub processors: Vec<ApateProcessor>,
    pub minijinja: MiniJinjaState,
    pub rhai: RhaiState,
}

impl ApateState {
    /// The state is in order: both caches are, and the script runtime knows
    /// exactly the scripts of the document.
    pub open spec fn wf(&self) -> bool {
        &&& self.minijinja.wf()
        &&& self.rhai.wf()
        &&& scripts_view(self.rhai.scripts@) == scripts_view(self.specs.scripts@)
    }

    /// Forgets every compiled template and script. The document stays.
    pub fn clear_cache(&mut self)
        requires
            old(self).wf(),
        ensures
            final(self).wf(),
            final(self).specs == old(self).specs,
            final(self).minijinja.templates.keys@.len() == 0,
            final(self).rhai.asts.keys@.len() == 0,
    {
        self.minijinja.clear();
        let scripts = clone_scripts(&self.specs.scripts);
        self.rhai.clear_and_update(scripts);
    }
}

impl ApateConfig {
    /// The state of a server that starts with this configuration: the
    /// document and the callbacks as given, fresh counters, empty caches, and
    /// an engine that stops a run of a script after the operations that the
    /// configuration allows.
    pub fn into_state(self) -> (r: ApateState)
        ensures
            r.wf(),
            r.specs == self.specs,
            r.processors == self.processors,
            r.minijinja.templates.keys@.len() == 0,
            r.rhai.asts.keys@.len() == 0,
            crate::rhai::engine_operations_limit(r.rhai.engine) == crate::rhai::chosen_limit(
                self.script_operations,
            ),
    {
        let mut rhai = RhaiState::with_limit(self.script_operations);
        rhai.clear_and_update(clone_scripts(&self.specs.scripts));
        ApateState {
            specs: self.specs,
            counters: ApateCounters::new(),
            processors: self.processors,
            minijinja: MiniJinjaState::new(),
            rhai,
        }
    }
}

/// Builds an [`ApateConfig`] step by step.
pub struct ApateConfigBuilder {
    pub port: u16,
    pub script_operations: u64,
    pub deceit: Vec<Deceit>,
    pub processors: Vec<ApateProcessor>,
    pub scripts: Vec<RhaiScript>,
}

impl Default for ApateConfigBuilder {
    fn default() -> (r: Self)
        ensures
            r.port == DEFAULT_PORT,
            r.deceit@.len() == 0,
            r.processors@.len() == 0,
            r.scripts@.len() == 0,
    {
        ApateConfigBuilder {
            port: DEFAULT_PORT,
            script_operations: 0,
            deceit: Vec::new(),
            processors: Vec::new(),
            scripts: Vec::new(),
        }
    }
}

/// The scripts after one with the id `id` and the source `source` was added:
/// it takes the place of the script with that id, or stands at the end where
/// there is none.
pub open spec fn with_script(
    scripts: Seq<(Seq<char>, Seq<char>)>,
    id: Seq<char>,
    source: Seq<char>,
) -> Seq<(Seq<char>, Seq<char>)>
    decreases scripts.len(),
{
    if scripts.len() == 0 {
        seq![(id, source)]
    } else if scripts[0].0 == id {
        seq![(id, source)] + scripts.drop_first()
    } else {
        seq![scripts[0]] + with_script(scripts.drop_first(), id, source)
    }
}

impl ApateConfigBuilder {
    /// Sets the port.
    pub fn with_port(self, port: u16) -> (r: Self)
        ensures
            r == (Self { port, ..self }),
    {
        let mut b = self;
        b.port = port;
        b
    }

    /// Sets the most operations that one run of a script may take; 0 stands
    /// for the default.
    pub fn with_script_operations(self, script_operations: u64) -> (r: Self)
        ensures
            r == (Self { script_operations, ..self }),
    {
        let mut b = self;
        b.script_operations = script_operations;
        b
    }

    /// Adds a script under `id`. A script added before under that id is
    /// replaced, so the ids stay unique.
    pub fn add_script(self, id: &str, script: &str) -> (r: Self)
        ensures
            r.port == self.port,
            r.script_operations == self.script_operations,
            r.deceit == self.deceit,
            r.processors == self.processors,
            scripts_view(r.scripts@) == with_script(scripts_view(self.scripts@), id@, script@),
    {
        let mut b = self;
        let fresh = RhaiScript { id: id.to_owned(), source: script.to_owned() };
        let ghost before = scripts_view(b.scripts@);
        let mut i: usize = 0;
        assert(before.subrange(0, before.len() as int) =~= before);
        assert(before.subrange(0, 0) + with_script(before, id@, script@) =~= with_script(
            before,
            id@,
            script@,
        ));
        while i < b.scripts.len()
            invariant
                i <= b.scripts@.len(),
                b.scripts == self.scripts,
                b.port == self.port,
                b.script_operations == self.script_operations,
                b.deceit == self.deceit,
                b.processors == self.processors,
                before == scripts_view(self.scripts@),
                fresh.id@ == id@,
                fresh.source@ == script@,
                with_script(before, id@, script@) == before.subrange(0, i as int) + with_script(
                    before.subrange(i as int, before.len() as int),
                    id@,
                    script@,
                ),
            decreases b.scripts.len() - i,
        {
            let ghost rest = before.subrange(i as int, before.len() as int);
            assert(rest[0] == before[i as int]);
            assert(before[i as int] == (b.scripts@[i as int].id@, b.scripts@[i as int].source@));
            assert(rest.drop_first() =~= before.subrange(i + 1, before.len() as int));
            if str_eq(b.scripts[i].id.as_str(), id) {
                b.scripts.set(i, fresh);
                assert(scripts_view(b.scripts@) =~= before.subrange(0, i as int) + (seq![(id@, script@)]
                    + rest.drop_first()));
                return b;
            }
            assert(before.subrange(0, i as int) + (seq![rest[0]] + with_script(
                rest.drop_first(),
                id@,
                script@,
            )) =~= before.subrange(0, i + 1) + with_script(rest.drop_first(), id@, script@));
            i += 1;
        }
        b.scripts.push(fresh);
        assert(before.subrange(before.len() as int, before.len() as int).len() == 0);
        assert(scripts_view(b.scripts@) =~= before.subrange(0, before.len() as int) + seq![
            (id@, script@),
        ]);
        b
    }

    /// Adds a rule after those added so far.
    pub fn add_deceit(self, deceit: Deceit) -> (r: Self)
        ensures
            r.deceit@ == self.deceit@.push(deceit),
            r == (Self { deceit: r.deceit, ..self }),
    {
        let mut b = self;
        b.deceit.push(deceit);
        b
    }

    /// Registers a callback of the host program. Of two under one id the
    /// later counts.
    pub fn register_processor(self, processor: ApateProcessor) -> (r: Self)
        ensures
            r.processors@ == self.processors@.push(processor),
            r == (Self { processors: r.processors, ..self }),
    {
        let mut b = self;
        b.processors.push(processor);
        b
    }

    /// The configuration that was built, where its document is valid: every
    /// rule has a URI pattern that this library matches and no tree of
    /// checks nests too deep. The script ids are unique by the building.
    pub fn try_build(self) -> (r: Result<ApateConfig, ConfigError>)
        ensures
            match r {
                Ok(c) => {
                    &&& c.specs.wf()
                    &&& c.port == self.port
                    &&& c.specs.deceit == self.deceit
                    &&& c.specs.scripts == self.scripts
                    &&& c.processors == self.processors
                },
                Err(e) => e matches ConfigError::Specs(_) && !(unique_ids(self.scripts@)
                    && crate::specs::all_valid(self.deceit@)),
            },
    {
        let config = self.build();
        match config.specs.validate() {
            Ok(()) => Ok(config),
            Err(reason) => Err(ConfigError::Specs(reason)),
        }
    }

    /// The configuration that was built, as it is: see
    /// [`ApateConfigBuilder::try_build`] for one that is checked.
    pub fn build(self) -> (r: ApateConfig)
        ensures
            r.port == self.port,
            r.script_operations == self.script_operations,
            r.specs.deceit == self.deceit,
            r.specs.scripts == self.scripts,
            r.processors == self.processors,
    {
        ApateConfig {
            port: self.port,
            script_operations: self.script_operations,
            specs: ApateSpecs { deceit: self.deceit, scripts: self.scripts },
            processors: self.processors,
        }
    }
}

impl DeceitBuilder {
    /// The configuration that holds only the rule that was built, with the
    /// default port.
    pub fn to_app_config(self) -> (r: ApateConfig)
        ensures
            r.port == DEFAULT_PORT,
            r.processors@.len() == 0,
            r.specs.scripts@.len() == 0,
            r.specs.deceit@.len() == 1,
            r.specs.deceit@[0].uris == self.uris,
            r.specs.deceit@[0].headers == self.headers,
            r.specs.deceit@[0].matchers == self.matchers,
            r.specs.deceit@[0].processors == self.processors,
            r.specs.deceit@[0].responses == self.responses,
    {
        self.to_app_config_with_port(DEFAULT_PORT)
    }

    /// The configuration that holds only the rule that was built, with the
    /// port `port`.
    pub fn to_app_config_with_port(self, port: u16) -> (r: ApateConfig)
        ensures
            r.port == port,
            r.processors@.len() == 0,
            r.specs.scripts@.len() == 0,
            r.specs.deceit@.len() == 1,
            r.specs.deceit@[0].uris == self.uris,
            r.specs.deceit@[0].headers == self.headers,
            r.specs.deceit@[0].matchers == self.matchers,
            r.specs.deceit@[0].processors == self.processors,
            r.specs.deceit@[0].responses == self.responses,
    {
        let mut deceit: Vec<Deceit> = Vec::new();
        deceit.push(self.build());
        ApateConfig {
            port,
            script_operations: 0,
            specs: ApateSpecs { deceit, scripts: Vec::new() },
            processors: Vec::new(),
        }
    }
}

} // verus!
