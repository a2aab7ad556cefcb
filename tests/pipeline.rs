use rr_convert::annotation::annotation_code;
use rr_convert::correction::correction_scope;
use rr_convert::output::{render_output, value_texts};
use rr_convert::path::form_result_path;
use rr_convert::record::{parse_line, parse_text, RawRecord};
use rr_convert::registry::AnnotationRegistry;
use rr_convert::transform::{transform_file, Record, TransformConfig, TransformState};

fn numeric_flags(raws: &Vec<RawRecord>) -> Vec<bool> {
    raws.iter()
        .map(|r| match &r.value {
            Some(v) => v.parse::<f32>().is_ok(),
            None => false,
        })
        .collect()
}

fn run(text: &str, diff: bool, skip: usize) -> (Vec<RawRecord>, Vec<Record>, AnnotationRegistry) {
    let raws = parse_text(text);
    let numeric = numeric_flags(&raws);
    let mut registry = AnnotationRegistry::new();
    let records = transform_file(&raws, &numeric, &TransformConfig { diff, skip }, &mut registry);
    (raws, records, registry)
}

fn value_of(raws: &Vec<RawRecord>, line: usize) -> f32 {
    raws[line].value.as_ref().unwrap().parse::<f32>().unwrap()
}

/// The interval text of a record, with multiplier and sampling rate applied.
fn interval_text(raws: &Vec<RawRecord>, r: &Record, diff: bool, multiplier: f32, rate: f32) -> String {
    if !r.numeric {
        return raws[r.line].value.clone().unwrap();
    }
    let v = value_of(raws, r.line);
    let current = if diff {
        v - r.base.map(|b| value_of(raws, b)).unwrap_or(0.0)
    } else {
        v
    };
    if rate == 0.0 {
        (current * multiplier).to_string()
    } else {
        (current * multiplier / rate).to_string()
    }
}

fn codes(records: &Vec<Record>) -> Vec<Option<u8>> {
    records.iter().map(|r| r.code).collect()
}

fn sorted_codes(registry: &AnnotationRegistry) -> Vec<u8> {
    let mut c = registry.codes();
    c.sort();
    c
}

#[test]
fn annotation_mapping_is_total() {
    assert_eq!(annotation_code("N"), 0);
    assert_eq!(annotation_code("V"), 1);
    assert_eq!(annotation_code("S"), 2);
    assert_eq!(annotation_code("X"), 3);
    assert_eq!(annotation_code("n"), 3);
    assert_eq!(annotation_code("NN"), 3);
    assert_eq!(annotation_code(""), 3);
    assert_eq!(annotation_code("Ñ"), 3);
}

#[test]
fn parse_line_keeps_first_two_tokens() {
    let r = parse_line("  812.5\tV  extra tokens ");
    assert_eq!(r.value.as_deref(), Some("812.5"));
    assert_eq!(r.annotation.as_deref(), Some("V"));
    let single = parse_line("800");
    assert_eq!(single.value.as_deref(), Some("800"));
    assert_eq!(single.annotation, None);
    let blank = parse_line("   ");
    assert_eq!(blank.value, None);
    assert_eq!(blank.annotation, None);
}

#[test]
fn parse_text_splits_lines() {
    let raws = parse_text("800 N\r\n\n820 V\n");
    assert_eq!(raws.len(), 3);
    assert_eq!(raws[0].value.as_deref(), Some("800"));
    assert_eq!(raws[0].annotation.as_deref(), Some("N"));
    assert_eq!(raws[1].value, None);
    assert_eq!(raws[2].annotation.as_deref(), Some("V"));
    assert_eq!(parse_text("").len(), 0);
}

#[test]
fn plain_count_is_lines_minus_skip_minus_blank() {
    let text = "1 N\n2 N\n3 V\n\n4 N\n   \n5 S\n";
    let (_, records, _) = run(text, false, 2);
    // seven lines, two skipped, two blank
    assert_eq!(records.len(), 3);
    let lines: Vec<usize> = records.iter().map(|r| r.line).collect();
    assert_eq!(lines, vec![2, 4, 6]);
    assert_eq!(codes(&records), vec![Some(1), Some(0), Some(2)]);
}

#[test]
fn diff_count_is_one_less() {
    let text = "1 N\n2 N\n3 V\n\n4 N\n5 S\n";
    for skip in 0..3 {
        let (_, plain, _) = run(text, false, skip);
        let (_, diff, _) = run(text, true, skip);
        assert_eq!(diff.len() + 1, plain.len());
    }
}

#[test]
fn skip_beyond_file_yields_nothing() {
    let (_, plain, reg) = run("1 N\n2 V\n", false, 5);
    assert!(plain.is_empty());
    assert!(reg.codes().is_empty());
    let (_, diff, _) = run("1 N\n2 V\n", true, 2);
    assert!(diff.is_empty());
}

#[test]
fn carry_forward_after_baseline_line() {
    // the seeding line is dropped; V maps to 1 and is carried onto the next line
    let (raws, records, reg) = run("100 N\n105 N\n110 V\n115 N\n", true, 0);
    assert_eq!(records.len(), 3);
    assert_eq!(codes(&records), vec![Some(0), Some(1), Some(1)]);
    let bases: Vec<Option<usize>> = records.iter().map(|r| r.base).collect();
    assert_eq!(bases, vec![Some(0), Some(1), Some(2)]);
    let values: Vec<String> = records.iter().map(|r| interval_text(&raws, r, true, 1.0, 0.0)).collect();
    assert_eq!(values, vec!["5", "5", "5"]);
    assert_eq!(sorted_codes(&reg), vec![0, 1]);
}

#[test]
fn carry_forward_from_second_line() {
    let (_, records, _) = run("1 N\n2 V\n3 N\n4 N\n", true, 0);
    assert_eq!(codes(&records), vec![Some(1), Some(1), Some(0)]);
}

#[test]
fn carry_forward_uses_mapped_code_not_emitted_one() {
    // V then S: line 2 emits 1 (carried), and 2 (mapped S) is what carries next
    let (_, records, reg) = run("1 N\n2 V\n3 S\n4 N\n5 N\n", true, 0);
    assert_eq!(codes(&records), vec![Some(1), Some(1), Some(2), Some(0)]);
    assert_eq!(sorted_codes(&reg), vec![0, 1, 2]);
}

#[test]
fn no_carry_forward_without_diff() {
    let (_, records, _) = run("1 N\n2 V\n3 N\n", false, 0);
    assert_eq!(codes(&records), vec![Some(0), Some(1), Some(0)]);
}

#[test]
fn skipped_lines_do_not_seed_state() {
    // the V on a skipped line neither carries nor enters the registry
    let (raws, records, reg) = run("50 V\n100 N\n130 N\n", true, 1);
    assert_eq!(records.len(), 1);
    assert_eq!(records[0].code, Some(0));
    assert_eq!(records[0].base, Some(1));
    assert_eq!(interval_text(&raws, &records[0], true, 1.0, 0.0), "30");
    assert_eq!(sorted_codes(&reg), vec![0]);
}

#[test]
fn seeding_line_code_enters_registry() {
    let (_, records, reg) = run("100 S\n110 N\n", true, 0);
    assert_eq!(codes(&records), vec![Some(2)]);
    assert_eq!(sorted_codes(&reg), vec![2]);
    let (_, records, reg) = run("100 X\n", true, 0);
    assert!(records.is_empty());
    assert_eq!(sorted_codes(&reg), vec![3]);
}

#[test]
fn non_numeric_value_passes_through() {
    let (raws, records, _) = run("100 N\nabc N\n130 N\n", true, 0);
    assert_eq!(records.len(), 2);
    assert!(!records[0].numeric);
    assert_eq!(interval_text(&raws, &records[0], true, 1.0, 0.0), "abc");
    // the non-numeric line does not move the previous value
    assert_eq!(records[1].base, Some(0));
    assert_eq!(interval_text(&raws, &records[1], true, 1.0, 0.0), "30");
}

#[test]
fn blank_seed_line_leaves_previous_value_zero() {
    let (raws, records, _) = run("\n100 N\n130 N\n", true, 0);
    assert_eq!(records.len(), 2);
    assert_eq!(records[0].base, None);
    assert_eq!(interval_text(&raws, &records[0], true, 1.0, 0.0), "100");
    assert_eq!(interval_text(&raws, &records[1], true, 1.0, 0.0), "30");
}

#[test]
fn single_token_line_is_a_record_without_code() {
    let (_, records, _) = run("800\n810 N\n", false, 0);
    assert_eq!(records.len(), 2);
    assert_eq!(records[0].code, None);
    let scope = correction_scope(&records);
    assert_eq!(scope.candidates, vec![1]);
}

#[test]
fn scaling_with_and_without_sampling_rate() {
    let (raws, records, _) = run("100 N\n104 N\n", true, 0);
    assert_eq!(interval_text(&raws, &records[0], true, 2.5, 0.0), "10");
    assert_eq!(interval_text(&raws, &records[0], true, 2.5, 5.0), "2");
}

#[test]
fn step_advances_line_index_and_state() {
    let cfg = TransformConfig { diff: true, skip: 1 };
    let mut state = TransformState::new();
    let mut reg = AnnotationRegistry::new();
    let skipped = parse_line("1 V");
    assert_eq!(state.step(&cfg, &skipped, true, &mut reg), None);
    assert_eq!(state.line_index, 1);
    assert_eq!(state.prev_code, 0);
    assert_eq!(state.last_numeric, None);
    let seed = parse_line("2 S");
    assert_eq!(state.step(&cfg, &seed, true, &mut reg), None);
    assert_eq!(state.last_numeric, Some(1));
    assert_eq!(state.prev_code, 2);
    let next = parse_line("3 N");
    let r = state.step(&cfg, &next, true, &mut reg).unwrap();
    assert_eq!(r, Record { line: 2, numeric: true, base: Some(1), code: Some(2) });
    assert_eq!(state.prev_code, 0);
}

#[test]
fn correction_scope_without_baseline_is_empty() {
    let (_, records, _) = run("800 V\n900 S\n", false, 0);
    let scope = correction_scope(&records);
    assert!(scope.baseline.is_empty());
    assert_eq!(scope.candidates, vec![0, 1]);
}

#[test]
fn correction_scope_skips_non_numeric() {
    let (_, records, _) = run("800 N\nx N\n900 V\n", false, 0);
    let scope = correction_scope(&records);
    assert_eq!(scope.baseline, vec![0]);
    assert_eq!(scope.candidates, vec![0, 2]);
}

#[test]
fn registry_merge_and_contains() {
    let mut a = AnnotationRegistry::new();
    a.insert(0);
    a.insert(0);
    let mut b = AnnotationRegistry::new();
    b.insert(3);
    b.insert(0);
    a.merge(&b);
    assert_eq!(a.codes(), vec![0, 3]);
    assert!(a.contains(3));
    assert!(!a.contains(1));
}

#[test]
fn output_text_has_header_and_coded_rows() {
    let records = vec![
        Record { line: 0, numeric: true, base: None, code: Some(0) },
        Record { line: 1, numeric: true, base: None, code: None },
        Record { line: 2, numeric: false, base: None, code: Some(3) },
        Record { line: 3, numeric: true, base: None, code: Some(200) },
    ];
    let values = vec!["800".to_string(), "810".to_string(), "abc".to_string(), "5".to_string()];
    assert_eq!(render_output(&values, &records), "RR\tannot\n800\t0\nabc\t3\n5\t200\n");
    assert_eq!(render_output(&Vec::new(), &Vec::new()), "RR\tannot\n");
}

#[test]
fn result_path_swaps_extension() {
    assert_eq!(form_result_path("/data/records/a.txt", "rr"), "/data/records/a.rr");
    assert_eq!(form_result_path("/data/b.tar.txt", "out"), "/data/b.tar.out");
    assert_eq!(form_result_path("/data/noext", "rr"), "/data/noext.rr");
}

#[test]
fn result_path_of_relative_file_stays_beside_it() {
    assert_eq!(form_result_path("a.txt", "rr"), "a.rr");
    assert_eq!(form_result_path("data/a.txt", "rr"), "data/a.rr");
}

#[test]
fn end_to_end_without_triggered_correction() {
    let (raws, records, reg) = run("800 N\n820 N\n2000 N\n810 N\n", false, 0);
    let mut values: Vec<String> =
        records.iter().map(|r| interval_text(&raws, r, false, 1.0, 0.0)).collect();
    let scope = correction_scope(&records);
    assert_eq!(scope.baseline, vec![0, 1, 2, 3]);
    let sum: f32 = scope.baseline.iter().map(|&k| values[k].parse::<f32>().unwrap()).sum();
    let mean = sum / scope.baseline.len() as f32;
    let threshold = 5.0 * mean;
    for &k in &scope.candidates {
        if values[k].parse::<f32>().unwrap().abs() > threshold {
            values[k] = mean.to_string();
        }
    }
    assert_eq!(render_output(&values, &records), "RR\tannot\n800\t0\n820\t0\n2000\t0\n810\t0\n");
    assert_eq!(reg.codes(), vec![0]);
    assert_eq!(form_result_path("/work/a.txt", "rr"), "/work/a.rr");
}

#[test]
fn value_texts_choose_number_or_token() {
    let (raws, records, _) = run("100 N\nabc V\n130 N\n", false, 0);
    let numbers = vec![Some("200".to_string()), Some("999".to_string()), None];
    let texts = value_texts(&raws, &records, &numbers);
    // a non-numeric record keeps its token; a numeric one without a number too
    assert_eq!(texts, vec!["200", "abc", "130"]);
}

#[test]
fn unicode_whitespace_separates_tokens() {
    let r = parse_line("\u{3000}812\u{00A0}S\u{2009}x");
    assert_eq!(r.value.as_deref(), Some("812"));
    assert_eq!(r.annotation.as_deref(), Some("S"));
}

#[test]
fn lines_keep_a_lone_carriage_return_token_apart() {
    let raws = parse_text("800 N\n\n810 V\r");
    assert_eq!(raws.len(), 3);
    assert_eq!(raws[1].value, None);
    assert_eq!(raws[2].annotation.as_deref(), Some("V"));
    assert_eq!(parse_text("\n").len(), 1);
}
