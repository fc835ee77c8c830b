//! The electrical snapshot: what a dataset holds once it is read, and how the
//! per-entity series of a dataset become per-time-step records.

use vstd::prelude::*;
use crate::ieee::Binary32;
use crate::ieee::Binary64;

verus! {

/// A single 2D position.
#[derive(Clone, Copy, Debug, PartialEq, Eq, Structural)]
pub struct Position {
    pub sx: Binary64,
    pub sy: Binary64,
}

/// A pair of positions: a start and an end point.
#[derive(Clone, Copy, Debug, PartialEq, Eq, Structural)]
pub struct EndedPosition {
    pub sx: Binary64,
    pub sy: Binary64,
    pub ex: Binary64,
    pub ey: Binary64,
}

/// A quantity that is split by phase.
#[derive(Clone, Copy, Debug)]
pub struct Phased<T> {
    pub a: T,
    pub b: T,
    pub c: T,
}

/// A quantity that is split by phase and differs between the start and the
/// end point.
#[derive(Clone, Copy, Debug)]
pub struct EndPhased<T> {
    pub sa: T,
    pub sb: T,
    pub sc: T,
    pub ea: T,
    pub eb: T,
    pub ec: T,
}

/// What drives a generator.
#[derive(Clone, Copy, Debug, PartialEq, Eq, Structural)]
pub enum GeneratorType {
    Unknown,
    Solar,
    Battery,
}

/// A line at one time step.
#[derive(Clone, Copy, Debug)]
pub struct LineState {
    pub voltage: EndPhased<Binary32>,
    pub real_power: EndPhased<Binary32>,
    pub reactive_power: EndPhased<Binary32>,
    pub loc: EndedPosition,
    pub line_load: Phased<Binary32>,
}

/// A transformer at one time step.
#[derive(Clone, Copy, Debug)]
pub struct TransformerState {
    pub voltage: EndPhased<Binary32>,
    pub tap: Phased<i32>,
    pub tap_changes: Phased<i32>,
    pub loc: Position,
}

/// A generator at one time step.
#[derive(Clone, Copy, Debug)]
pub struct GeneratorState {
    pub voltage: Phased<Binary32>,
    pub angle: Phased<Binary32>,
    pub real: Binary32,
    pub react: Binary32,
    pub loc: Position,
    pub ty: GeneratorType,
}

/// A map that gives the power system its surroundings.
#[derive(Debug)]
pub struct Floorplan {
    pub ll_x: Binary64,
    pub ll_y: Binary64,
    pub ur_x: Binary64,
    pub ur_y: Binary64,
    pub data: Vec<u8>,
}

/// A dataset, ready for display. The lists are indexed by time step, then by
/// entity: `lines[time][line]`.
pub struct PowerSystem {
    pub title: String,
    pub lines: Vec<Vec<LineState>>,
    pub tfs: Vec<Vec<TransformerState>>,
    pub pvs: Vec<Vec<GeneratorState>>,
    pub line_meta: Vec<String>,
    pub floor_plan: Option<Floorplan>,
}

/// What a line measures at one time step, the divisors of the dataset
/// already applied.
#[derive(Clone, Copy, Debug)]
pub struct LineSample {
    pub voltage: EndPhased<Binary32>,
    pub real_power: EndPhased<Binary32>,
    pub reactive_power: EndPhased<Binary32>,
    pub line_load: Phased<Binary32>,
}

/// What a transformer measures at one time step.
#[derive(Clone, Copy, Debug)]
pub struct TransformerSample {
    pub voltage: EndPhased<Binary32>,
    pub tap: Phased<i32>,
    pub tap_changes: Phased<i32>,
}

/// What a generator measures at one time step.
#[derive(Clone, Copy, Debug)]
pub struct GeneratorSample {
    pub voltage: Phased<Binary32>,
    pub angle: Phased<Binary32>,
    pub real: Binary32,
    pub react: Binary32,
}

/// A line as a dataset stores it: where it lies, its name if it has a
/// readable one, and its samples in time order.
pub struct LineSeries {
    pub loc: EndedPosition,
    pub name: Option<String>,
    pub samples: Vec<LineSample>,
}

/// A transformer as a dataset stores it.
pub struct TransformerSeries {
    pub loc: Position,
    pub samples: Vec<TransformerSample>,
}

/// A generator as a dataset stores it.
pub struct GeneratorSeries {
    pub loc: Position,
    pub ty: GeneratorType,
    pub samples: Vec<GeneratorSample>,
}

/// A dataset as it is stored: one series for each entity.
pub struct Dataset {
    /// The title that the dataset gives itself, if it can be read.
    pub name: Option<String>,
    pub lines: Vec<LineSeries>,
    pub transformers: Vec<TransformerSeries>,
    pub generators: Vec<GeneratorSeries>,
    pub floor_plan: Option<Floorplan>,
}

/// The kinds of entity that a dataset lists.
#[derive(Clone, Copy, Debug, PartialEq, Eq, Structural)]
pub enum EntityKind {
    Line,
    Transformer,
    Generator,
}

/// Why a dataset cannot be displayed.
#[derive(Clone, Copy, Debug, PartialEq, Eq, Structural)]
pub enum LoadError {
    /// The dataset lists no entity of this kind.
    MissingSection(EntityKind),
    /// The entity with this index has another number of samples than the
    /// first entity of its kind.
    TimestepMismatch(EntityKind, usize),
    /// The lines have no sample: there is no time step to show.
    NoTimesteps,
    /// The entities of this kind cover another number of time steps than the
    /// lines do.
    KindMismatch(EntityKind),
}

/// Entity `i` is the first whose number of samples differs from that of
/// entity 0.
pub open spec fn first_ragged(counts: Seq<usize>, i: int) -> bool {
    &&& 0 < i < counts.len()
    &&& counts[i] != counts[0]
    &&& forall|j: int| 0 <= j < i ==> #[trigger] counts[j] == counts[0]
}

/// All entities have as many samples as entity 0.
pub open spec fn uniform(counts: Seq<usize>) -> bool {
    forall|j: int| 0 <= j < counts.len() ==> #[trigger] counts[j] == counts[0]
}

/// The number of samples that all entities of one kind share: an error if
/// there is no entity, or if one differs from the first.
pub fn common_sample_count(kind: EntityKind, counts: &Vec<usize>) -> (r: Result<usize, LoadError>)
    ensures
        match r {
            Ok(n) => counts.len() > 0 && uniform(counts@) && n == counts[0],
            Err(LoadError::MissingSection(k)) => k == kind && counts.len() == 0,
            Err(LoadError::TimestepMismatch(k, i)) => k == kind && first_ragged(counts@, i as int),
            Err(_) => false,
        },
{
    if counts.len() == 0 {
        return Err(LoadError::MissingSection(kind));
    }
    let n: usize = counts[0];
    let mut i: usize = 1;
    while i < counts.len()
        invariant
            1 <= i <= counts.len(),
            n == counts[0],
            forall|j: int| 0 <= j < i ==> #[trigger] counts[j] == counts[0],
        decreases counts.len() - i,
    {
        if counts[i] != n {
            return Err(LoadError::TimestepMismatch(kind, i));
        }
        i += 1;
    }
    Ok(n)
}

/// The numbers of samples of the lines, in order.
pub open spec fn line_counts(series: Seq<LineSeries>) -> Seq<usize> {
    Seq::new(series.len(), |i: int| series[i].samples.len())
}

/// The numbers of samples of the transformers, in order.
pub open spec fn transformer_counts(series: Seq<TransformerSeries>) -> Seq<usize> {
    Seq::new(series.len(), |i: int| series[i].samples.len())
}

/// The numbers of samples of the generators, in order.
pub open spec fn generator_counts(series: Seq<GeneratorSeries>) -> Seq<usize> {
    Seq::new(series.len(), |i: int| series[i].samples.len())
}

/// The line `s` at time step `t`.
pub open spec fn line_state_at(s: LineSeries, t: int) -> LineState {
    LineState {
        voltage: s.samples[t].voltage,
        real_power: s.samples[t].real_power,
        reactive_power: s.samples[t].reactive_power,
        loc: s.loc,
        line_load: s.samples[t].line_load,
    }
}

/// The transformer `s` at time step `t`.
pub open spec fn transformer_state_at(s: TransformerSeries, t: int) -> TransformerState {
    TransformerState {
        voltage: s.samples[t].voltage,
        tap: s.samples[t].tap,
        tap_changes: s.samples[t].tap_changes,
        loc: s.loc,
    }
}

/// The generator `s` at time step `t`.
pub open spec fn generator_state_at(s: GeneratorSeries, t: int) -> GeneratorState {
    GeneratorState {
        voltage: s.samples[t].voltage,
        angle: s.samples[t].angle,
        real: s.samples[t].real,
        react: s.samples[t].react,
        loc: s.loc,
        ty: s.ty,
    }
}

/// `out` lists the lines of `series` by time step, then by line.
pub open spec fn lines_by_time(series: Seq<LineSeries>, out: Seq<Vec<LineState>>) -> bool {
    &&& series.len() > 0
    &&& out.len() == series[0].samples.len()
    &&& forall|t: int| 0 <= t < out.len() ==> (#[trigger] out[t]).len() == series.len()
    &&& forall|t: int, i: int|
        0 <= t < out.len() && 0 <= i < series.len() ==> #[trigger] out[t][i] == line_state_at(
            series[i],
            t,
        )
}

/// `out` lists the transformers of `series` by time step, then by
/// transformer.
pub open spec fn transformers_by_time(
    series: Seq<TransformerSeries>,
    out: Seq<Vec<TransformerState>>,
) -> bool {
    &&& series.len() > 0
    &&& out.len() == series[0].samples.len()
    &&& forall|t: int| 0 <= t < out.len() ==> (#[trigger] out[t]).len() == series.len()
    &&& forall|t: int, i: int|
        0 <= t < out.len() && 0 <= i < series.len() ==> #[trigger] out[t][i]
            == transformer_state_at(series[i], t)
}

/// `out` lists the generators of `series` by time step, then by generator.
pub open spec fn generators_by_time(
    series: Seq<GeneratorSeries>,
    out: Seq<Vec<GeneratorState>>,
) -> bool {
    &&& series.len() > 0
    &&& out.len() == series[0].samples.len()
    &&& forall|t: int| 0 <= t < out.len() ==> (#[trigger] out[t]).len() == series.len()
    &&& forall|t: int, i: int|
        0 <= t < out.len() && 0 <= i < series.len() ==> #[trigger] out[t][i]
            == generator_state_at(series[i], t)
}

fn line_sample_counts(series: &Vec<LineSeries>) -> (r: Vec<usize>)
    ensures
        r@ == line_counts(series@),
{
    let mut counts: Vec<usize> = Vec::new();
    let mut i: usize = 0;
    while i < series.len()
        invariant
            i <= series.len(),
            counts.len() == i,
            forall|j: int| 0 <= j < i ==> #[trigger] counts[j] == series[j].samples.len(),
        decreases series.len() - i,
    {
        counts.push(series[i].samples.len());
        i += 1;
    }
    assert(counts@ =~= line_counts(series@));
    counts
}

fn transformer_sample_counts(series: &Vec<TransformerSeries>) -> (r: Vec<usize>)
    ensures
        r@ == transformer_counts(series@),
{
    let mut counts: Vec<usize> = Vec::new();
    let mut i: usize = 0;
    while i < series.len()
        invariant
            i <= series.len(),
            counts.len() == i,
            forall|j: int| 0 <= j < i ==> #[trigger] counts[j] == series[j].samples.len(),
        decreases series.len() - i,
    {
        counts.push(series[i].samples.len());
        i += 1;
    }
    assert(counts@ =~= transformer_counts(series@));
    counts
}

fn generator_sample_counts(series: &Vec<GeneratorSeries>) -> (r: Vec<usize>)
    ensures
        r@ == generator_counts(series@),
{
    let mut counts: Vec<usize> = Vec::new();
    let mut i: usize = 0;
    while i < series.len()
        invariant
            i <= series.len(),
            counts.len() == i,
            forall|j: int| 0 <= j < i ==> #[trigger] counts[j] == series[j].samples.len(),
        decreases series.len() - i,
    {
        counts.push(series[i].samples.len());
        i += 1;
    }
    assert(counts@ =~= generator_counts(series@));
    counts
}

/// Turns the lines of a dataset, each with its samples in time order, into
/// one list of lines for each time step. It fails if there is no line, or if
/// a line has another number of samples than the first.
pub fn load_lines(series: &Vec<LineSeries>) -> (r: Result<Vec<Vec<LineState>>, LoadError>)
    ensures
        match r {
            Ok(out) => uniform(line_counts(series@)) && lines_by_time(series@, out@),
            Err(LoadError::MissingSection(k)) => k == EntityKind::Line && series.len() == 0,
            Err(LoadError::TimestepMismatch(k, i)) => k == EntityKind::Line && first_ragged(
                line_counts(series@),
                i as int,
            ),
            Err(_) => false,
        },
{
    let counts = line_sample_counts(series);
    let steps: usize = match common_sample_count(EntityKind::Line, &counts) {
        Ok(n) => n,
        Err(e) => {
            return Err(e);
        },
    };
    let mut out: Vec<Vec<LineState>> = Vec::new();
    let mut t: usize = 0;
    while t < steps
        invariant
            t <= steps,
            series.len() > 0,
            steps == series[0].samples.len(),
            uniform(line_counts(series@)),
            out.len() == t,
            forall|u: int| 0 <= u < t ==> (#[trigger] out[u]).len() == series.len(),
            forall|u: int, i: int|
                0 <= u < t && 0 <= i < series.len() ==> #[trigger] out[u][i] == line_state_at(
                    series[i],
                    u,
                ),
        decreases steps - t,
    {
        let mut per_time_step: Vec<LineState> = Vec::new();
        let mut i: usize = 0;
        while i < series.len()
            invariant
                i <= series.len(),
                t < steps,
                series.len() > 0,
                steps == series[0].samples.len(),
                uniform(line_counts(series@)),
                per_time_step.len() == i,
                forall|j: int|
                    0 <= j < i ==> #[trigger] per_time_step[j] == line_state_at(series[j], t as int),
            decreases series.len() - i,
        {
            let s = &series[i];
            assert(line_counts(series@)[i as int] == line_counts(series@)[0]);
            let a = s.samples[t];
            per_time_step.push(
                LineState {
                    voltage: a.voltage,
                    real_power: a.real_power,
                    reactive_power: a.reactive_power,
                    loc: s.loc,
                    line_load: a.line_load,
                },
            );
            i += 1;
        }
        out.push(per_time_step);
        t += 1;
    }
    Ok(out)
}

/// Turns the transformers of a dataset into one list of transformers for
/// each time step, as [`load_lines`] does the lines.
pub fn load_transformers(series: &Vec<TransformerSeries>) -> (r: Result<
    Vec<Vec<TransformerState>>,
    LoadError,
>)
    ensures
        match r {
            Ok(out) => uniform(transformer_counts(series@)) && transformers_by_time(series@, out@),
            Err(LoadError::MissingSection(k)) => k == EntityKind::Transformer && series.len() == 0,
            Err(LoadError::TimestepMismatch(k, i)) => k == EntityKind::Transformer && first_ragged(
                transformer_counts(series@),
                i as int,
            ),
            Err(_) => false,
        },
{
    let counts = transformer_sample_counts(series);
    let steps: usize = match common_sample_count(EntityKind::Transformer, &counts) {
        Ok(n) => n,
        Err(e) => {
            return Err(e);
        },
    };
    let mut out: Vec<Vec<TransformerState>> = Vec::new();
    let mut t: usize = 0;
    while t < steps
        invariant
            t <= steps,
            series.len() > 0,
            steps == series[0].samples.len(),
            uniform(transformer_counts(series@)),
            out.len() == t,
            forall|u: int| 0 <= u < t ==> (#[trigger] out[u]).len() == series.len(),
            forall|u: int, i: int|
                0 <= u < t && 0 <= i < series.len() ==> #[trigger] out[u][i]
                    == transformer_state_at(series[i], u),
        decreases steps - t,
    {
        let mut per_time_step: Vec<TransformerState> = Vec::new();
        let mut i: usize = 0;
        while i < series.len()
            invariant
                i <= series.len(),
                t < steps,
                series.len() > 0,
                steps == series[0].samples.len(),
                uniform(transformer_counts(series@)),
                per_time_step.len() == i,
                forall|j: int|
                    0 <= j < i ==> #[trigger] per_time_step[j] == transformer_state_at(
                        series[j],
                        t as int,
                    ),
            decreases series.len() - i,
        {
            let s = &series[i];
            assert(transformer_counts(series@)[i as int] == transformer_counts(series@)[0]);
            let a = s.samples[t];
            per_time_step.push(
                TransformerState {
                    voltage: a.voltage,
                    tap: a.tap,
                    tap_changes: a.tap_changes,
                    loc: s.loc,
                },
            );
            i += 1;
        }
        out.push(per_time_step);
        t += 1;
    }
    Ok(out)
}

/// Turns the generators of a dataset into one list of generators for each
/// time step, as [`load_lines`] does the lines.
pub fn load_generators(series: &Vec<GeneratorSeries>) -> (r: Result<
    Vec<Vec<GeneratorState>>,
    LoadError,
>)
    ensures
        match r {
            Ok(out) => uniform(generator_counts(series@)) && generators_by_time(series@, out@),
            Err(LoadError::MissingSection(k)) => k == EntityKind::Generator && series.len() == 0,
            Err(LoadError::TimestepMismatch(k, i)) => k == EntityKind::Generator && first_ragged(
                generator_counts(series@),
                i as int,
            ),
            Err(_) => false,
        },
{
    let counts = generator_sample_counts(series);
    let steps: usize = match common_sample_count(EntityKind::Generator, &counts) {
        Ok(n) => n,
        Err(e) => {
            return Err(e);
        },
    };
    let mut out: Vec<Vec<GeneratorState>> = Vec::new();
    let mut t: usize = 0;
    while t < steps
        invariant
            t <= steps,
            series.len() > 0,
            steps == series[0].samples.len(),
            uniform(generator_counts(series@)),
            out.len() == t,
            forall|u: int| 0 <= u < t ==> (#[trigger] out[u]).len() == series.len(),
            forall|u: int, i: int|
                0 <= u < t && 0 <= i < series.len() ==> #[trigger] out[u][i] == generator_state_at(
                    series[i],
                    u,
                ),
        decreases steps - t,
    {
        let mut per_time_step: Vec<GeneratorState> = Vec::new();
        let mut i: usize = 0;
        while i < series.len()
            invariant
                i <= series.len(),
                t < steps,
                series.len() > 0,
                steps == series[0].samples.len(),
                uniform(generator_counts(series@)),
                per_time_step.len() == i,
                forall|j: int|
                    0 <= j < i ==> #[trigger] per_time_step[j] == generator_state_at(
                        series[j],
                        t as int,
                    ),
            decreases series.len() - i,
        {
            let s = &series[i];
            assert(generator_counts(series@)[i as int] == generator_counts(series@)[0]);
            let a = s.samples[t];
            per_time_step.push(
                GeneratorState {
                    voltage: a.voltage,
                    angle: a.angle,
                    real: a.real,
                    react: a.react,
                    loc: s.loc,
                    ty: s.ty,
                },
            );
            i += 1;
        }
        out.push(per_time_step);
        t += 1;
    }
    Ok(out)
}

/// The name under which a line is shown: its own, or "Unknown".
pub open spec fn shown_name(name: Option<String>) -> Seq<char> {
    match name {
        Some(n) => n@,
        None => "Unknown"@,
    }
}

/// The names of the lines, "Unknown" for each line without a readable name.
pub fn load_line_metadata(lines: &Vec<LineSeries>) -> (r: Vec<String>)
    ensures
        r.len() == lines.len(),
        forall|i: int| 0 <= i < lines.len() ==> (#[trigger] r[i])@ == shown_name(lines[i].name),
{
    let mut names: Vec<String> = Vec::new();
    let mut i: usize = 0;
    while i < lines.len()
        invariant
            i <= lines.len(),
            names.len() == i,
            forall|j: int| 0 <= j < i ==> (#[trigger] names[j])@ == shown_name(lines[j].name),
        decreases lines.len() - i,
    {
        let name = match &lines[i].name {
            Some(n) => n.clone(),
            None => "Unknown".to_owned(),
        };
        names.push(name);
        i += 1;
    }
    names
}

/// The title of a dataset: the name that it gives itself unless that is
/// missing or empty, else the stem of its file name, else "Unknown".
pub open spec fn title_of(name: Option<String>, stem: Option<String>) -> Seq<char> {
    match name {
        Some(n) if n@.len() > 0 => n@,
        _ => match stem {
            Some(s) => s@,
            None => "Unknown"@,
        },
    }
}

/// Determines the title of a dataset from the name read out of it and the
/// stem of its file name.
pub fn figure_name(name: &Option<String>, stem: &Option<String>) -> (r: String)
    ensures
        r@ == title_of(*name, *stem),
{
    if let Some(n) = name {
        if !n.as_str().is_empty() {
            return n.clone();
        }
    }
    match stem {
        Some(s) => s.clone(),
        None => "Unknown".to_owned(),
    }
}

/// Every list of `lists` is as long as the first.
pub open spec fn same_lengths<T>(lists: Seq<Vec<T>>) -> bool {
    forall|t: int| 0 <= t < lists.len() ==> (#[trigger] lists[t]).len() == lists[0].len()
}

fn all_same_length<T>(lists: &Vec<Vec<T>>) -> (r: bool)
    ensures
        r == same_lengths(lists@),
{
    let mut t: usize = 0;
    while t < lists.len()
        invariant
            t <= lists.len(),
            forall|u: int| 0 <= u < t ==> (#[trigger] lists[u]).len() == lists[0].len(),
        decreases lists.len() - t,
    {
        if lists[t].len() != lists[0].len() {
            return false;
        }
        t += 1;
    }
    true
}

impl PowerSystem {
    /// Every time step lists the same entities, and there is a time step.
    pub open spec fn wf(self) -> bool {
        &&& self.lines.len() >= 1
        &&& self.tfs.len() == self.lines.len()
        &&& self.pvs.len() == self.lines.len()
        &&& same_lengths(self.lines@)
        &&& same_lengths(self.tfs@)
        &&& same_lengths(self.pvs@)
        &&& self.line_meta.len() == self.lines[0].len()
    }

    /// Tests whether the power system is well formed.
    pub fn is_well_formed(&self) -> (r: bool)
        ensures
            r == self.wf(),
    {
        self.lines.len() >= 1 && self.tfs.len() == self.lines.len() && self.pvs.len()
            == self.lines.len() && all_same_length(&self.lines) && all_same_length(&self.tfs)
            && all_same_length(&self.pvs) && self.line_meta.len() == self.lines[0].len()
    }
}

/// Why `ds` cannot be displayed, if it cannot: the first fault in the order
/// lines, transformers, generators, no time step, transformers out of step,
/// generators out of step.
pub open spec fn load_fault(ds: Dataset) -> Option<LoadError> {
    let lc = line_counts(ds.lines@);
    let tc = transformer_counts(ds.transformers@);
    let gc = generator_counts(ds.generators@);
    if lc.len() == 0 {
        Some(LoadError::MissingSection(EntityKind::Line))
    } else if !uniform(lc) {
        Some(
            LoadError::TimestepMismatch(
                EntityKind::Line,
                choose|i: usize| first_ragged(lc, i as int),
            ),
        )
    } else if tc.len() == 0 {
        Some(LoadError::MissingSection(EntityKind::Transformer))
    } else if !uniform(tc) {
        Some(
            LoadError::TimestepMismatch(
                EntityKind::Transformer,
                choose|i: usize| first_ragged(tc, i as int),
            ),
        )
    } else if gc.len() == 0 {
        Some(LoadError::MissingSection(EntityKind::Generator))
    } else if !uniform(gc) {
        Some(
            LoadError::TimestepMismatch(
                EntityKind::Generator,
                choose|i: usize| first_ragged(gc, i as int),
            ),
        )
    } else if lc[0] == 0 {
        Some(LoadError::NoTimesteps)
    } else if tc[0] != lc[0] {
        Some(LoadError::KindMismatch(EntityKind::Transformer))
    } else if gc[0] != lc[0] {
        Some(LoadError::KindMismatch(EntityKind::Generator))
    } else {
        None
    }
}

/// There is at most one first ragged entity.
pub proof fn lemma_first_ragged_unique(counts: Seq<usize>, i: int, j: int)
    requires
        first_ragged(counts, i),
        first_ragged(counts, j),
    ensures
        i == j,
{
    if i < j {
        assert(counts[i] == counts[0]);
    } else if j < i {
        assert(counts[j] == counts[0]);
    }
}

/// Assembles the power system of a dataset: the entities by time step, the
/// names of the lines, the title and the floor plan. It fails, with the
/// first fault that [`load_fault`] finds, if a kind of entity is missing, if
/// the entities do not all cover the same time steps, or if there is no time
/// step.
pub fn load_powersystem(ds: Dataset, stem: &Option<String>) -> (r: Result<PowerSystem, LoadError>)
    ensures
        match r {
            Ok(ps) => {
                &&& load_fault(ds) is None
                &&& ps.wf()
                &&& ps.title@ == title_of(ds.name, *stem)
                &&& lines_by_time(ds.lines@, ps.lines@)
                &&& transformers_by_time(ds.transformers@, ps.tfs@)
                &&& generators_by_time(ds.generators@, ps.pvs@)
                &&& ps.line_meta.len() == ds.lines.len()
                &&& forall|i: int|
                    0 <= i < ds.lines.len() ==> (#[trigger] ps.line_meta[i])@ == shown_name(
                        ds.lines[i].name,
                    )
                &&& ps.floor_plan == ds.floor_plan
            },
            Err(e) => load_fault(ds) == Some(e),
        },
{
    let ghost lc = line_counts(ds.lines@);
    let ghost tc = transformer_counts(ds.transformers@);
    let ghost gc = generator_counts(ds.generators@);
    let lines = match load_lines(&ds.lines) {
        Ok(v) => v,
        Err(e) => {
            proof {
                if let LoadError::TimestepMismatch(k, i) = e {
                    let w = choose|w: usize| first_ragged(lc, w as int);
                    lemma_first_ragged_unique(lc, i as int, w as int);
                }
            }
            return Err(e);
        },
    };
    let tfs = match load_transformers(&ds.transformers) {
        Ok(v) => v,
        Err(e) => {
            proof {
                if let LoadError::TimestepMismatch(k, i) = e {
                    let w = choose|w: usize| first_ragged(tc, w as int);
                    lemma_first_ragged_unique(tc, i as int, w as int);
                }
            }
            return Err(e);
        },
    };
    let pvs = match load_generators(&ds.generators) {
        Ok(v) => v,
        Err(e) => {
            proof {
                if let LoadError::TimestepMismatch(k, i) = e {
                    let w = choose|w: usize| first_ragged(gc, w as int);
                    lemma_first_ragged_unique(gc, i as int, w as int);
                }
            }
            return Err(e);
        },
    };
    if lines.len() == 0 {
        return Err(LoadError::NoTimesteps);
    }
    if tfs.len() != lines.len() {
        return Err(LoadError::KindMismatch(EntityKind::Transformer));
    }
    if pvs.len() != lines.len() {
        return Err(LoadError::KindMismatch(EntityKind::Generator));
    }
    let title = figure_name(&ds.name, stem);
    let line_meta = load_line_metadata(&ds.lines);
    Ok(PowerSystem { title, lines, tfs, pvs, floor_plan: ds.floor_plan, line_meta })
}

} // verus!
