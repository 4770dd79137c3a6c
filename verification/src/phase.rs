//! The generation phases: a fixed, totally ordered sequence that ends in
//! `Packaging`.

use vstd::prelude::*;

verus! {

/// One stage of the generation process. The variants are listed in the order in
/// which the process runs through them.
#[derive(Clone, Copy, Debug, PartialEq, Eq, Hash, Structural)]
pub enum GenerationPhase {
    Design,
    StyleGuide,
    WorldGeneration,
    AiSystems,
    AssetGeneration,
    CodeGeneration,
    DialogWriting,
    MusicComposition,
    Integration,
    Packaging,
}

/// The number of phases.
pub const PHASE_COUNT: usize = 10;

impl GenerationPhase {
    /// The place of the phase in the fixed order, counted from zero.
    pub open spec fn position(self) -> nat {
        match self {
            GenerationPhase::Design => 0,
            GenerationPhase::StyleGuide => 1,
            GenerationPhase::WorldGeneration => 2,
            GenerationPhase::AiSystems => 3,
            GenerationPhase::AssetGeneration => 4,
            GenerationPhase::CodeGeneration => 5,
            GenerationPhase::DialogWriting => 6,
            GenerationPhase::MusicComposition => 7,
            GenerationPhase::Integration => 8,
            GenerationPhase::Packaging => 9,
        }
    }

    /// The phase at place `i` of the fixed order; the last phase for any place
    /// beyond the end.
    pub open spec fn at(i: nat) -> GenerationPhase {
        if i == 0 {
            GenerationPhase::Design
        } else if i == 1 {
            GenerationPhase::StyleGuide
        } else if i == 2 {
            GenerationPhase::WorldGeneration
        } else if i == 3 {
            GenerationPhase::AiSystems
        } else if i == 4 {
            GenerationPhase::AssetGeneration
        } else if i == 5 {
            GenerationPhase::CodeGeneration
        } else if i == 6 {
            GenerationPhase::DialogWriting
        } else if i == 7 {
            GenerationPhase::MusicComposition
        } else if i == 8 {
            GenerationPhase::Integration
        } else {
            GenerationPhase::Packaging
        }
    }

    /// The phase that follows in the fixed order. The last phase follows itself.
    pub open spec fn successor(self) -> GenerationPhase {
        GenerationPhase::at(self.position() + 1)
    }

    /// Whether the phase is the last one, after which nothing is generated.
    pub open spec fn terminal(self) -> bool {
        self == GenerationPhase::Packaging
    }

    /// The name of the template directory of the phase. The last phase has none.
    pub open spec fn directory(self) -> Option<Seq<char>> {
        match self {
            GenerationPhase::Design => Some("01_design"@),
            GenerationPhase::StyleGuide => Some("02_style"@),
            GenerationPhase::WorldGeneration => Some("03_world"@),
            GenerationPhase::AiSystems => Some("04_ai_systems"@),
            GenerationPhase::AssetGeneration => Some("05_assets"@),
            GenerationPhase::CodeGeneration => Some("06_code"@),
            GenerationPhase::DialogWriting => Some("07_dialog"@),
            GenerationPhase::MusicComposition => Some("08_music"@),
            GenerationPhase::Integration => Some("09_integration"@),
            GenerationPhase::Packaging => None,
        }
    }

    /// The phase in which the process starts.
    pub fn first() -> (p: GenerationPhase)
        ensures
            p == GenerationPhase::Design,
            p.position() == 0,
    {
        GenerationPhase::Design
    }

    /// The place of the phase in the fixed order, counted from zero.
    pub fn index(self) -> (i: usize)
        ensures
            i == self.position(),
            i < PHASE_COUNT,
    {
        match self {
            GenerationPhase::Design => 0,
            GenerationPhase::StyleGuide => 1,
            GenerationPhase::WorldGeneration => 2,
            GenerationPhase::AiSystems => 3,
            GenerationPhase::AssetGeneration => 4,
            GenerationPhase::CodeGeneration => 5,
            GenerationPhase::DialogWriting => 6,
            GenerationPhase::MusicComposition => 7,
            GenerationPhase::Integration => 8,
            GenerationPhase::Packaging => 9,
        }
    }

    /// The phase that follows in the fixed order. The last phase follows itself.
    pub fn next(self) -> (p: GenerationPhase)
        ensures
            p == self.successor(),
    {
        match self {
            GenerationPhase::Design => GenerationPhase::StyleGuide,
            GenerationPhase::StyleGuide => GenerationPhase::WorldGeneration,
            GenerationPhase::WorldGeneration => GenerationPhase::AiSystems,
            GenerationPhase::AiSystems => GenerationPhase::AssetGeneration,
            GenerationPhase::AssetGeneration => GenerationPhase::CodeGeneration,
            GenerationPhase::CodeGeneration => GenerationPhase::DialogWriting,
            GenerationPhase::DialogWriting => GenerationPhase::MusicComposition,
            GenerationPhase::MusicComposition => GenerationPhase::Integration,
            GenerationPhase::Integration => GenerationPhase::Packaging,
            GenerationPhase::Packaging => GenerationPhase::Packaging,
        }
    }

    /// Whether the phase is the last one.
    pub fn is_terminal(self) -> (r: bool)
        ensures
            r == self.terminal(),
    {
        self == GenerationPhase::Packaging
    }

    /// Whether `self` comes strictly before `other` in the fixed order.
    pub fn precedes(self, other: GenerationPhase) -> (r: bool)
        ensures
            r == (self.position() < other.position()),
    {
        self.index() < other.index()
    }

    /// The name of the template directory of the phase. The last phase has none.
    pub fn template_directory(self) -> (dir: Option<&'static str>)
        ensures
            match dir {
                Some(name) => self.directory() == Some(name@),
                None => self.directory() is None,
            },
    {
        match self {
            GenerationPhase::Design => Some("01_design"),
            GenerationPhase::StyleGuide => Some("02_style"),
            GenerationPhase::WorldGeneration => Some("03_world"),
            GenerationPhase::AiSystems => Some("04_ai_systems"),
            GenerationPhase::AssetGeneration => Some("05_assets"),
            GenerationPhase::CodeGeneration => Some("06_code"),
            GenerationPhase::DialogWriting => Some("07_dialog"),
            GenerationPhase::MusicComposition => Some("08_music"),
            GenerationPhase::Integration => Some("09_integration"),
            GenerationPhase::Packaging => None,
        }
    }
}

/// The fixed order: each phase has its own place, every place below
/// `PHASE_COUNT` holds a phase, a phase that is not the last is followed by the
/// phase one place further, and the last phase is followed by itself.
pub proof fn lemma_phase_order(p: GenerationPhase, q: GenerationPhase)
    ensures
        p.position() < PHASE_COUNT,
        GenerationPhase::at(p.position()) == p,
        p.position() == q.position() ==> p == q,
        !p.terminal() ==> p.successor().position() == p.position() + 1,
        p.terminal() ==> p.successor() == p,
        p.terminal() <==> p.position() == PHASE_COUNT - 1,
{
}

/// A phase has a template directory exactly when it is not the last one.
pub proof fn lemma_directory_iff_not_terminal(p: GenerationPhase)
    ensures
        p.directory() is Some <==> !p.terminal(),
{
}

} // verus!
