use pan_cjkv::{
    annotate_rune, is_han_script_lo_character, is_vs, rebuild_chars, region_vs, AnnotateError,
    PanCJKVAnnotate, PanCJKVRegion,
};
use runestr::{rune, RuneString};

fn rune_of_cluster(s: &str) -> rune {
    rune::from_grapheme_cluster(s).unwrap()
}

fn chars_of(r: rune) -> Vec<char> {
    r.into_chars().collect()
}

#[test]
fn test_han_with_ascent() {
    let test = RuneString::from_str_lossy("\u{6211}\u{030C}\u{4EEC}\u{E01EE}\u{0301}");
    assert_eq!(2, test.runes().count());
    let runes: Vec<rune> = test.runes().collect();
    let mut iter = runes.annotate_with_pan_cjkv_region(PanCJKVRegion::XK);
    let result = iter
        .annotate_all()
        .into_iter()
        .map(|r| r.unwrap())
        .collect::<RuneString>();
    assert_eq!(
        &result.chars().collect::<Vec<_>>()[..],
        &[
            '\u{6211}',
            '\u{E01EF}',
            '\u{030C}',
            '\u{4EEC}',
            '\u{E01EE}',
            '\u{0301}'
        ]
    );
    assert_eq!(2, result.runes().count());
}

#[test]
fn test_simple_insertion() {
    let r = rune::from_char('\u{6211}').unwrap();
    let out = annotate_rune(r, region_vs(PanCJKVRegion::XK)).unwrap();
    assert_eq!(chars_of(out), vec!['\u{6211}', '\u{E01EF}']);
}

#[test]
fn test_cluster_insertion_with_trailing_mark() {
    let r = rune_of_cluster("\u{6211}\u{030C}");
    let out = annotate_rune(r, region_vs(PanCJKVRegion::XK)).unwrap();
    assert_eq!(chars_of(out), vec!['\u{6211}', '\u{E01EF}', '\u{030C}']);
}

#[test]
fn test_already_annotated_cluster_left_alone() {
    let r = rune_of_cluster("\u{4EEC}\u{E01EE}\u{0301}");
    let out = annotate_rune(r, region_vs(PanCJKVRegion::XK)).unwrap();
    assert_eq!(out, r);
    assert_eq!(chars_of(out), vec!['\u{4EEC}', '\u{E01EE}', '\u{0301}']);
}

#[test]
fn test_annotation_idempotent_same_region() {
    let vs = region_vs(PanCJKVRegion::XK);
    let r = rune_of_cluster("\u{6211}\u{030C}");
    let once = annotate_rune(r, vs).unwrap();
    let twice = annotate_rune(once, vs).unwrap();
    assert_eq!(twice, once);
    assert_eq!(chars_of(twice), vec!['\u{6211}', '\u{E01EF}', '\u{030C}']);
}

#[test]
fn test_cross_region_non_interference() {
    let r = rune::from_char('\u{4EEC}').unwrap();
    let under_cn = annotate_rune(r, region_vs(PanCJKVRegion::CN)).unwrap();
    assert_eq!(chars_of(under_cn), vec!['\u{4EEC}', '\u{E01EE}']);
    let then_xk = annotate_rune(under_cn, region_vs(PanCJKVRegion::XK)).unwrap();
    assert_eq!(then_xk, under_cn);
    assert_eq!(chars_of(then_xk), vec!['\u{4EEC}', '\u{E01EE}']);
}

#[test]
fn test_non_han_passthrough() {
    let vs = region_vs(PanCJKVRegion::JP);
    for text in ["A", "\u{3042}", "\u{0915}\u{093C}"] {
        let r = rune_of_cluster(text);
        let out = annotate_rune(r, vs).unwrap();
        assert_eq!(out, r);
    }
}

#[test]
fn test_malformed_cluster_error() {
    // Inserting a non-selector after the ideograph splits the text into two
    // grapheme clusters, so the atom constructor refuses it.
    let r = rune::from_char('\u{6211}').unwrap();
    let out = annotate_rune(r, 'A');
    assert_eq!(out, Err(AnnotateError::MalformedCluster));
}

#[test]
fn test_next_pulls_one_atom_per_call() {
    let test = RuneString::from_str_lossy("\u{6211}\u{030C}\u{4EEC}\u{E01EE}\u{0301}");
    let runes: Vec<rune> = test.runes().collect();
    let mut iter = runes.annotate_with_pan_cjkv_region(PanCJKVRegion::XK);
    let first = iter.next().unwrap().unwrap();
    assert_eq!(chars_of(first), vec!['\u{6211}', '\u{E01EF}', '\u{030C}']);
    let second = iter.next().unwrap().unwrap();
    assert_eq!(chars_of(second), vec!['\u{4EEC}', '\u{E01EE}', '\u{0301}']);
    assert!(iter.next().is_none());
    assert!(iter.next().is_none());
}

#[test]
fn test_order_and_count_preserved() {
    let test = RuneString::from_str_lossy("a\u{6211}b\u{4EEC}c");
    let runes: Vec<rune> = test.runes().collect();
    assert_eq!(5, runes.len());
    let expected: Vec<Vec<char>> = vec![
        vec!['a'],
        vec!['\u{6211}', '\u{E01E8}'],
        vec!['b'],
        vec!['\u{4EEC}', '\u{E01E8}'],
        vec!['c'],
    ];
    let mut iter = runes.annotate_with_pan_cjkv_region(PanCJKVRegion::JP);
    let out = iter.annotate_all();
    assert_eq!(out.len(), 5);
    for (o, want) in out.into_iter().zip(expected) {
        assert_eq!(chars_of(o.unwrap()), want);
    }
}

#[test]
fn test_rebuild_chars_direct() {
    let rebuilt = rebuild_chars(&vec!['\u{6211}', '\u{030C}'], '\u{E01EF}');
    assert_eq!(rebuilt, Some(vec!['\u{6211}', '\u{E01EF}', '\u{030C}']));
    assert_eq!(rebuild_chars(&vec!['A', '\u{030C}'], '\u{E01EF}'), None);
    assert_eq!(
        rebuild_chars(&vec!['\u{4EEC}', '\u{E01EE}', '\u{0301}'], '\u{E01EF}'),
        None
    );
    // An eligible base deeper in the cluster is still found and annotated.
    assert_eq!(
        rebuild_chars(&vec!['\u{0301}', '\u{4E00}', '\u{0301}'], '\u{E01E5}'),
        Some(vec!['\u{0301}', '\u{4E00}', '\u{E01E5}', '\u{0301}'])
    );
}

#[test]
fn test_region_table() {
    let table = [
        (PanCJKVRegion::XK, '\u{E01EF}'),
        (PanCJKVRegion::CN, '\u{E01EE}'),
        (PanCJKVRegion::SG, '\u{E01ED}'),
        (PanCJKVRegion::TW, '\u{E01EC}'),
        (PanCJKVRegion::HK, '\u{E01EB}'),
        (PanCJKVRegion::MO, '\u{E01EA}'),
        (PanCJKVRegion::MY, '\u{E01E9}'),
        (PanCJKVRegion::JP, '\u{E01E8}'),
        (PanCJKVRegion::KR, '\u{E01E7}'),
        (PanCJKVRegion::KP, '\u{E01E6}'),
        (PanCJKVRegion::VN, '\u{E01E5}'),
    ];
    for (region, want) in table {
        let got = region_vs(region);
        assert_eq!(got, want);
        assert!(is_vs(got));
    }
    // Pairwise distinct: the eleven selectors fill one descending block.
    for w in table.windows(2) {
        assert_eq!(w[0].1 as u32, w[1].1 as u32 + 1);
    }
}

#[test]
fn test_is_vs_ranges() {
    assert!(is_vs('\u{FE00}'));
    assert!(is_vs('\u{FE0F}'));
    assert!(is_vs('\u{E0100}'));
    assert!(is_vs('\u{E01EF}'));
    assert!(!is_vs('\u{FDFF}'));
    assert!(!is_vs('\u{FE10}'));
    assert!(!is_vs('\u{E00FF}'));
    assert!(!is_vs('A'));
    assert!(!is_vs('\u{6211}'));
}

#[test]
fn test_is_han_script_lo_ranges() {
    assert!(is_han_script_lo_character('\u{4E00}'));
    assert!(is_han_script_lo_character('\u{9FFF}'));
    assert!(is_han_script_lo_character('\u{3400}'));
    assert!(is_han_script_lo_character('\u{4DBF}'));
    assert!(is_han_script_lo_character('\u{F900}'));
    assert!(is_han_script_lo_character('\u{20000}'));
    assert!(!is_han_script_lo_character('\u{4DC0}'));
    assert!(!is_han_script_lo_character('\u{3007}'));
    assert!(!is_han_script_lo_character('A'));
    assert!(!is_han_script_lo_character('\u{3042}'));
}
