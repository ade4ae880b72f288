//! Where the settings file is looked for and written, and in which order.
//!
//! Reading and writing files is left to the caller; the functions here decide,
//! from what each attempt gave, what to try next.
use vstd::prelude::*;

verus! {

/// A directory where the settings file may lie.
#[derive(Clone, Copy, Debug, PartialEq, Eq, Structural)]
pub enum Location {
    /// Beside the executable (a portable installation).
    ExeDir,
    /// The application's directory under the user's local application data.
    LocalAppData,
    /// The system's temporary directory.
    Temp,
}

/// The places the settings file is looked for, by priority: beside the
/// executable when its directory is known, then under the local application
/// data when that directory is set.
pub open spec fn spec_candidates(exe_dir_known: bool, appdata_known: bool) -> Seq<Location> {
    (if exe_dir_known {
        seq![Location::ExeDir]
    } else {
        Seq::empty()
    }) + (if appdata_known {
        seq![Location::LocalAppData]
    } else {
        Seq::empty()
    })
}

/// Lists the places the settings file is looked for, by priority.
pub fn candidate_locations(exe_dir_known: bool, appdata_known: bool) -> (v: Vec<Location>)
    ensures
        v@ == spec_candidates(exe_dir_known, appdata_known),
{
    let mut v: Vec<Location> = Vec::new();
    if exe_dir_known {
        v.push(Location::ExeDir);
    }
    if appdata_known {
        v.push(Location::LocalAppData);
    }
    proof {
        assert(v@ =~= spec_candidates(exe_dir_known, appdata_known));
    }
    v
}

pub open spec fn spec_primary_save_location(exe_dir_known: bool) -> Location {
    if exe_dir_known {
        Location::ExeDir
    } else {
        Location::Temp
    }
}

/// The place a save tries first: beside the executable when its directory is
/// known, otherwise the temporary directory.
pub fn primary_save_location(exe_dir_known: bool) -> (l: Location)
    ensures
        l == spec_primary_save_location(exe_dir_known),
{
    if exe_dir_known {
        Location::ExeDir
    } else {
        Location::Temp
    }
}

/// The stages of a save, in the order they may be tried.
#[derive(Clone, Copy, Debug, PartialEq, Eq, Structural)]
pub enum SaveStage {
    /// The primary save location.
    Primary,
    /// The local application data directory, created first if need be.
    Fallback,
    /// The temporary directory, when no local application data directory is set.
    LastResort,
}

/// What a save does next.
#[derive(Clone, Copy, Debug, PartialEq, Eq, Structural)]
pub enum SaveStep {
    /// Write the settings at the location of this stage.
    Write(SaveStage),
    /// The settings were written at the location of this stage.
    Saved(SaveStage),
    /// The save failed with the error of the last write.
    Failed,
}

pub open spec fn spec_save_next(stage: SaveStage, write_ok: bool, fallback_known: bool) -> SaveStep {
    if write_ok {
        SaveStep::Saved(stage)
    } else {
        match stage {
            SaveStage::Primary => if fallback_known {
                SaveStep::Write(SaveStage::Fallback)
            } else {
                SaveStep::Write(SaveStage::LastResort)
            },
            _ => SaveStep::Failed,
        }
    }
}

/// The first step of every save.
pub fn save_start() -> (s: SaveStep)
    ensures
        s == SaveStep::Write(SaveStage::Primary),
{
    SaveStep::Write(SaveStage::Primary)
}

/// Decides what a save does after the write of `stage`, which succeeded when
/// `write_ok`; `fallback_known` tells whether a local application data
/// directory is set.
pub fn save_next(stage: SaveStage, write_ok: bool, fallback_known: bool) -> (s: SaveStep)
    ensures
        s == spec_save_next(stage, write_ok, fallback_known),
{
    if write_ok {
        SaveStep::Saved(stage)
    } else {
        match stage {
            SaveStage::Primary => if fallback_known {
                SaveStep::Write(SaveStage::Fallback)
            } else {
                SaveStep::Write(SaveStage::LastResort)
            },
            _ => SaveStep::Failed,
        }
    }
}

pub open spec fn spec_stage_location(stage: SaveStage, exe_dir_known: bool) -> Location {
    match stage {
        SaveStage::Primary => spec_primary_save_location(exe_dir_known),
        SaveStage::Fallback => Location::LocalAppData,
        SaveStage::LastResort => Location::Temp,
    }
}

/// The location written at a stage of a save.
pub fn stage_location(stage: SaveStage, exe_dir_known: bool) -> (l: Location)
    ensures
        l == spec_stage_location(stage, exe_dir_known),
{
    match stage {
        SaveStage::Primary => primary_save_location(exe_dir_known),
        SaveStage::Fallback => Location::LocalAppData,
        SaveStage::LastResort => Location::Temp,
    }
}

/// What one attempt to load the settings from a candidate location gave.
#[derive(Clone, Copy, Debug, PartialEq, Eq, Structural)]
pub enum LoadOutcome {
    /// The file could not be read there.
    Unreadable,
    /// The file was read but its contents could not be parsed.
    Malformed,
    /// The file was read and parsed.
    Parsed,
}

/// What a load does next.
#[derive(Clone, Copy, Debug, PartialEq, Eq, Structural)]
pub enum LoadStep {
    /// Try the candidate location with this index.
    Read(usize),
    /// Use the settings parsed from the candidate with this index.
    Use(usize),
    /// No candidate held settings that could be read and parsed.
    NotFound,
}

pub open spec fn spec_load_start(count: int) -> LoadStep {
    if count > 0 {
        LoadStep::Read(0)
    } else {
        LoadStep::NotFound
    }
}

pub open spec fn spec_load_next(index: int, count: int, outcome: LoadOutcome) -> LoadStep {
    match outcome {
        LoadOutcome::Parsed => LoadStep::Use(index as usize),
        _ => if index + 1 < count {
            LoadStep::Read((index + 1) as usize)
        } else {
            LoadStep::NotFound
        },
    }
}

/// The first step of a load over `count` candidate locations.
pub fn load_start(count: usize) -> (s: LoadStep)
    ensures
        s == spec_load_start(count as int),
{
    if count > 0 {
        LoadStep::Read(0)
    } else {
        LoadStep::NotFound
    }
}

/// Decides what a load over `count` candidates does after trying the
/// candidate with index `index`: a parsed file is used; an unreadable or
/// malformed one is passed over for the next candidate, if there is one.
pub fn load_next(index: usize, count: usize, outcome: LoadOutcome) -> (s: LoadStep)
    requires
        index < count,
    ensures
        s == spec_load_next(index as int, count as int, outcome),
{
    match outcome {
        LoadOutcome::Parsed => LoadStep::Use(index),
        _ => if index + 1 < count {
            LoadStep::Read(index + 1)
        } else {
            LoadStep::NotFound
        },
    }
}

/// Law: the candidate locations come by priority, the executable's directory
/// first; each appears exactly when its directory is known, and the temporary
/// directory is never one of them.
pub proof fn law_candidates_by_priority(exe_dir_known: bool, appdata_known: bool)
    ensures
        spec_candidates(exe_dir_known, appdata_known).contains(Location::ExeDir) <==> exe_dir_known,
        spec_candidates(exe_dir_known, appdata_known).contains(Location::LocalAppData)
            <==> appdata_known,
        !spec_candidates(exe_dir_known, appdata_known).contains(Location::Temp),
        exe_dir_known ==> spec_candidates(exe_dir_known, appdata_known)[0] == Location::ExeDir,
        spec_candidates(exe_dir_known, appdata_known).len() == (if exe_dir_known {
            1int
        } else {
            0int
        }) + (if appdata_known {
            1int
        } else {
            0int
        }),
{
    let c = spec_candidates(exe_dir_known, appdata_known);
    if exe_dir_known {
        assert(c[0] == Location::ExeDir);
    }
    if appdata_known {
        assert(c[c.len() - 1] == Location::LocalAppData);
    }
    assert(forall|i: int| 0 <= i < c.len() ==> c[i] != Location::Temp);
    if !exe_dir_known {
        assert(forall|i: int| 0 <= i < c.len() ==> c[i] != Location::ExeDir);
    }
    if !appdata_known {
        assert(forall|i: int| 0 <= i < c.len() ==> c[i] != Location::LocalAppData);
    }
}

/// The step a save reaches after its first write gave `primary_ok` and, where
/// there is a second write, that one gave `second_ok`.
pub open spec fn spec_save_run(primary_ok: bool, fallback_known: bool, second_ok: bool) -> SaveStep {
    match spec_save_next(SaveStage::Primary, primary_ok, fallback_known) {
        SaveStep::Write(stage) => spec_save_next(stage, second_ok, fallback_known),
        s => s,
    }
}

/// Law: a save ends after at most two writes. A successful primary write ends
/// it; a failed one moves on to the local application data directory when it
/// is set, and to the temporary directory only when it is not; the second
/// write's failure is the save's failure (a failed fallback write does not
/// fall through to the temporary directory).
pub proof fn law_save_plan(primary_ok: bool, fallback_known: bool, second_ok: bool)
    ensures
        spec_save_run(primary_ok, fallback_known, second_ok) == (if primary_ok {
            SaveStep::Saved(SaveStage::Primary)
        } else if second_ok {
            SaveStep::Saved(
                if fallback_known {
                    SaveStage::Fallback
                } else {
                    SaveStage::LastResort
                },
            )
        } else {
            SaveStep::Failed
        }),
        !(spec_save_run(primary_ok, fallback_known, second_ok) is Write),
        spec_save_next(SaveStage::Fallback, false, fallback_known) == SaveStep::Failed,
{
}

/// The step a load over the candidates with the given outcomes ends in, once
/// it has reached the candidate with index `index`.
pub open spec fn spec_load_run(outcomes: Seq<LoadOutcome>, index: int) -> LoadStep
    decreases outcomes.len() - index,
{
    if 0 <= index < outcomes.len() {
        match spec_load_next(index, outcomes.len() as int, outcomes[index]) {
            LoadStep::Read(_) => spec_load_run(outcomes, index + 1),
            s => s,
        }
    } else {
        LoadStep::NotFound
    }
}

proof fn lemma_load_run_from(outcomes: Seq<LoadOutcome>, index: int)
    requires
        0 <= index <= outcomes.len(),
        outcomes.len() <= usize::MAX,
    ensures
        match spec_load_run(outcomes, index) {
            LoadStep::Use(i) => index <= i < outcomes.len() && outcomes[i as int]
                == LoadOutcome::Parsed && forall|j: int|
                index <= j < i ==> outcomes[j] != LoadOutcome::Parsed,
            LoadStep::NotFound => forall|j: int|
                index <= j < outcomes.len() ==> outcomes[j] != LoadOutcome::Parsed,
            LoadStep::Read(_) => false,
        },
    decreases outcomes.len() - index,
{
    if index < outcomes.len() {
        lemma_load_run_from(outcomes, index + 1);
    }
}

/// Law: a load uses the first candidate, in priority order, whose file could
/// be both read and parsed, passing over unreadable and malformed ones; it
/// finds nothing only when no candidate parsed. Each step passes over to the
/// very next candidate, and the first step reads the first candidate.
pub proof fn law_load_uses_first_parsed(outcomes: Seq<LoadOutcome>)
    requires
        outcomes.len() <= usize::MAX,
    ensures
        match spec_load_run(outcomes, 0) {
            LoadStep::Use(i) => i < outcomes.len() && outcomes[i as int] == LoadOutcome::Parsed
                && forall|j: int| 0 <= j < i ==> outcomes[j] != LoadOutcome::Parsed,
            LoadStep::NotFound => forall|j: int|
                0 <= j < outcomes.len() ==> outcomes[j] != LoadOutcome::Parsed,
            LoadStep::Read(_) => false,
        },
        outcomes.len() > 0 ==> spec_load_start(outcomes.len() as int) == LoadStep::Read(0),
        forall|i: int|
            0 <= i < outcomes.len() ==> (spec_load_next(i, outcomes.len() as int, #[trigger] outcomes[i])
                matches LoadStep::Read(j) ==> j == i + 1),
{
    lemma_load_run_from(outcomes, 0);
}

/// Law: a save writes first beside the executable when its directory is
/// known and in the temporary directory otherwise; its fallback stage writes
/// under the local application data and its last resort in the temporary
/// directory; every save starts with the primary stage.
pub proof fn law_save_locations(exe_dir_known: bool)
    ensures
        spec_stage_location(SaveStage::Primary, exe_dir_known) == (if exe_dir_known {
            Location::ExeDir
        } else {
            Location::Temp
        }),
        spec_primary_save_location(exe_dir_known) == spec_stage_location(
            SaveStage::Primary,
            exe_dir_known,
        ),
        spec_stage_location(SaveStage::Fallback, exe_dir_known) == Location::LocalAppData,
        spec_stage_location(SaveStage::LastResort, exe_dir_known) == Location::Temp,
{
}

/// Law: a load over no candidates finds nothing at once; over some, it reads
/// the first one first. A parsed candidate is used at once, and after an
/// unreadable or malformed one the load goes to the next candidate or, after
/// the last, finds nothing.
pub proof fn law_load_steps(index: int, count: int)
    requires
        0 <= index < count <= usize::MAX,
    ensures
        spec_load_start(0) == LoadStep::NotFound,
        spec_load_start(count) == LoadStep::Read(0),
        spec_load_next(index, count, LoadOutcome::Parsed) == LoadStep::Use(index as usize),
        spec_load_next(index, count, LoadOutcome::Unreadable) == (if index + 1 < count {
            LoadStep::Read((index + 1) as usize)
        } else {
            LoadStep::NotFound
        }),
        spec_load_next(index, count, LoadOutcome::Malformed) == spec_load_next(
            index,
            count,
            LoadOutcome::Unreadable,
        ),
{
}

} // verus!
