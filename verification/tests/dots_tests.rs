use noodles_grid::dots::common_sample_count;
use noodles_grid::dots::figure_name;
use noodles_grid::dots::load_generators;
use noodles_grid::dots::load_line_metadata;
use noodles_grid::dots::load_lines;
use noodles_grid::dots::load_powersystem;
use noodles_grid::dots::load_transformers;
use noodles_grid::dots::Dataset;
use noodles_grid::dots::EndPhased;
use noodles_grid::dots::EndedPosition;
use noodles_grid::dots::EntityKind;
use noodles_grid::dots::Floorplan;
use noodles_grid::dots::GeneratorSample;
use noodles_grid::dots::GeneratorSeries;
use noodles_grid::dots::GeneratorType;
use noodles_grid::dots::LineSample;
use noodles_grid::dots::LineSeries;
use noodles_grid::dots::LoadError;
use noodles_grid::dots::Phased;
use noodles_grid::dots::Position;
use noodles_grid::dots::TransformerSample;
use noodles_grid::dots::TransformerSeries;
use noodles_grid::ieee::Binary32;
use noodles_grid::ieee::Binary64;

fn b(x: f32) -> Binary32 {
    Binary32::from_bits(x.to_bits())
}

fn w(x: f64) -> Binary64 {
    Binary64::from_bits(x.to_bits())
}

fn ends(v: f32) -> EndPhased<Binary32> {
    EndPhased { sa: b(v), sb: b(v + 1.0), sc: b(v + 2.0), ea: b(v + 3.0), eb: b(v + 4.0), ec: b(v + 5.0) }
}

fn line_sample(v: f32) -> LineSample {
    LineSample {
        voltage: ends(v),
        real_power: ends(v * 10.0),
        reactive_power: ends(v * 100.0),
        line_load: Phased { a: b(v), b: b(v), c: b(v) },
    }
}

fn line(x: f64, name: Option<&str>, values: &[f32]) -> LineSeries {
    LineSeries {
        loc: EndedPosition { sx: w(x), sy: w(x + 1.0), ex: w(x + 2.0), ey: w(x + 3.0) },
        name: name.map(|n| n.to_string()),
        samples: values.iter().map(|&v| line_sample(v)).collect(),
    }
}

fn transformer(x: f64, steps: usize) -> TransformerSeries {
    TransformerSeries {
        loc: Position { sx: w(x), sy: w(-x) },
        samples: (0..steps)
            .map(|t| TransformerSample {
                voltage: ends(t as f32),
                tap: Phased { a: t as i32, b: 1, c: 2 },
                tap_changes: Phased { a: 3, b: 4, c: t as i32 },
            })
            .collect(),
    }
}

fn generator(x: f64, ty: GeneratorType, steps: usize) -> GeneratorSeries {
    GeneratorSeries {
        loc: Position { sx: w(x), sy: w(-x) },
        ty,
        samples: (0..steps)
            .map(|t| GeneratorSample {
                voltage: Phased { a: b(t as f32), b: b(1.0), c: b(2.0) },
                angle: Phased { a: b(0.5), b: b(1.5), c: b(2.5) },
                real: b(100.0 + t as f32),
                react: b(50.0),
            })
            .collect(),
    }
}

fn dataset() -> Dataset {
    Dataset {
        name: Some("Feeder".to_string()),
        lines: vec![line(0.0, Some("L1"), &[1.0, 2.0, 3.0]), line(10.0, None, &[4.0, 5.0, 6.0])],
        transformers: vec![transformer(1.0, 3)],
        generators: vec![generator(2.0, GeneratorType::Solar, 3), generator(3.0, GeneratorType::Battery, 3)],
        floor_plan: None,
    }
}

#[test]
fn lines_are_listed_by_time_step() {
    let series = vec![line(0.0, None, &[1.0, 2.0, 3.0]), line(10.0, None, &[4.0, 5.0, 6.0])];
    let out = load_lines(&series).unwrap();
    assert_eq!(out.len(), 3);
    for t in 0..3 {
        assert_eq!(out[t].len(), 2);
        for i in 0..2 {
            assert_eq!(out[t][i].voltage.sa, series[i].samples[t].voltage.sa);
            assert_eq!(out[t][i].voltage.ec, series[i].samples[t].voltage.ec);
            assert_eq!(out[t][i].real_power.sb, series[i].samples[t].real_power.sb);
            assert_eq!(out[t][i].reactive_power.sc, series[i].samples[t].reactive_power.sc);
            assert_eq!(out[t][i].line_load.a, series[i].samples[t].line_load.a);
            assert_eq!(out[t][i].loc, series[i].loc);
        }
    }
    assert_eq!(out[1][1].voltage.sa, b(5.0));
}

#[test]
fn lines_without_samples_give_no_time_step() {
    let out = load_lines(&vec![line(0.0, None, &[])]).unwrap();
    assert_eq!(out.len(), 0);
}

#[test]
fn no_lines_is_a_missing_section() {
    assert_eq!(load_lines(&vec![]).err(), Some(LoadError::MissingSection(EntityKind::Line)));
    assert_eq!(load_transformers(&vec![]).err(), Some(LoadError::MissingSection(EntityKind::Transformer)));
    assert_eq!(load_generators(&vec![]).err(), Some(LoadError::MissingSection(EntityKind::Generator)));
}

#[test]
fn a_ragged_line_fails_the_load() {
    let series = vec![
        line(0.0, None, &[1.0, 2.0]),
        line(1.0, None, &[1.0, 2.0]),
        line(2.0, None, &[1.0]),
        line(3.0, None, &[]),
    ];
    assert_eq!(load_lines(&series).err(), Some(LoadError::TimestepMismatch(EntityKind::Line, 2)));
}

#[test]
fn transformers_are_listed_by_time_step() {
    let series = vec![transformer(1.0, 2), transformer(2.0, 2)];
    let out = load_transformers(&series).unwrap();
    assert_eq!(out.len(), 2);
    assert_eq!(out[1].len(), 2);
    assert_eq!(out[1][0].tap.a, 1);
    assert_eq!(out[1][1].tap_changes.c, 1);
    assert_eq!(out[0][1].loc, series[1].loc);
    assert_eq!(out[1][0].voltage.ea, b(4.0));
}

#[test]
fn a_ragged_transformer_fails_the_load() {
    let series = vec![transformer(1.0, 2), transformer(2.0, 3)];
    assert_eq!(
        load_transformers(&series).err(),
        Some(LoadError::TimestepMismatch(EntityKind::Transformer, 1))
    );
}

#[test]
fn generators_are_listed_by_time_step() {
    let series = vec![generator(1.0, GeneratorType::Solar, 2), generator(2.0, GeneratorType::Unknown, 2)];
    let out = load_generators(&series).unwrap();
    assert_eq!(out.len(), 2);
    assert_eq!(out[0][0].ty, GeneratorType::Solar);
    assert_eq!(out[1][1].ty, GeneratorType::Unknown);
    assert_eq!(out[1][0].real, b(101.0));
    assert_eq!(out[1][0].voltage.a, b(1.0));
    assert_eq!(out[0][1].loc, series[1].loc);
}

#[test]
fn a_ragged_generator_fails_the_load() {
    let series = vec![generator(1.0, GeneratorType::Solar, 2), generator(2.0, GeneratorType::Solar, 1)];
    assert_eq!(
        load_generators(&series).err(),
        Some(LoadError::TimestepMismatch(EntityKind::Generator, 1))
    );
}

#[test]
fn common_sample_count_of_equal_counts() {
    assert_eq!(common_sample_count(EntityKind::Line, &vec![4, 4, 4]), Ok(4));
    assert_eq!(
        common_sample_count(EntityKind::Line, &vec![4, 4, 5, 6]),
        Err(LoadError::TimestepMismatch(EntityKind::Line, 2))
    );
    assert_eq!(
        common_sample_count(EntityKind::Generator, &vec![]),
        Err(LoadError::MissingSection(EntityKind::Generator))
    );
}

#[test]
fn line_names_fall_back_to_unknown() {
    let series = vec![line(0.0, Some("North"), &[1.0]), line(1.0, None, &[1.0]), line(2.0, Some(""), &[1.0])];
    assert_eq!(load_line_metadata(&series), vec!["North".to_string(), "Unknown".to_string(), "".to_string()]);
}

#[test]
fn title_is_the_name_of_the_dataset() {
    assert_eq!(figure_name(&Some("Feeder 7".to_string()), &Some("pack".to_string())), "Feeder 7");
}

#[test]
fn title_falls_back_to_the_file_stem() {
    assert_eq!(figure_name(&Some(String::new()), &Some("pack".to_string())), "pack");
    assert_eq!(figure_name(&None, &Some("pack".to_string())), "pack");
}

#[test]
fn title_falls_back_to_unknown() {
    assert_eq!(figure_name(&None, &None), "Unknown");
    assert_eq!(figure_name(&Some(String::new()), &None), "Unknown");
}

#[test]
fn a_sound_dataset_loads() {
    let ps = load_powersystem(dataset(), &Some("pack".to_string())).unwrap();
    assert_eq!(ps.title, "Feeder");
    assert_eq!(ps.lines.len(), 3);
    assert_eq!(ps.tfs.len(), 3);
    assert_eq!(ps.pvs.len(), 3);
    assert_eq!(ps.lines[2].len(), 2);
    assert_eq!(ps.tfs[2].len(), 1);
    assert_eq!(ps.pvs[2].len(), 2);
    assert_eq!(ps.line_meta, vec!["L1".to_string(), "Unknown".to_string()]);
    assert!(ps.floor_plan.is_none());
    assert_eq!(ps.lines[2][1].voltage.sa, b(6.0));
}

#[test]
fn the_floor_plan_is_kept() {
    let mut ds = dataset();
    ds.floor_plan = Some(Floorplan { ll_x: w(1.0), ll_y: w(2.0), ur_x: w(3.0), ur_y: w(4.0), data: vec![1, 2, 3] });
    let ps = load_powersystem(ds, &None).unwrap();
    let fp = ps.floor_plan.unwrap();
    assert_eq!(fp.data, vec![1, 2, 3]);
    assert_eq!(fp.ur_x, w(3.0));
}

#[test]
fn a_dataset_without_time_steps_fails() {
    let mut ds = dataset();
    ds.lines = vec![line(0.0, None, &[])];
    ds.transformers = vec![transformer(1.0, 0)];
    ds.generators = vec![generator(1.0, GeneratorType::Solar, 0)];
    assert_eq!(load_powersystem(ds, &None).err(), Some(LoadError::NoTimesteps));
}

#[test]
fn transformers_out_of_step_fail() {
    let mut ds = dataset();
    ds.transformers = vec![transformer(1.0, 2)];
    assert_eq!(load_powersystem(ds, &None).err(), Some(LoadError::KindMismatch(EntityKind::Transformer)));
}

#[test]
fn generators_out_of_step_fail() {
    let mut ds = dataset();
    ds.generators = vec![generator(1.0, GeneratorType::Solar, 4)];
    assert_eq!(load_powersystem(ds, &None).err(), Some(LoadError::KindMismatch(EntityKind::Generator)));
}

#[test]
fn the_first_fault_is_reported() {
    let mut ds = dataset();
    ds.lines = vec![line(0.0, None, &[1.0]), line(1.0, None, &[1.0, 2.0])];
    ds.transformers = vec![];
    assert_eq!(load_powersystem(ds, &None).err(), Some(LoadError::TimestepMismatch(EntityKind::Line, 1)));
    let mut ds = dataset();
    ds.transformers = vec![];
    ds.generators = vec![];
    assert_eq!(load_powersystem(ds, &None).err(), Some(LoadError::MissingSection(EntityKind::Transformer)));
}
