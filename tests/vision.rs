use achroma::vision::{ColorVision, ConeCell, ConeCellCond, ConeCellSummary};

#[test]
fn test_summary_default() {
    let normal = ConeCellSummary::default();
    assert_eq!(normal.l, ConeCellCond::Normal);
    assert_eq!(normal.m, ConeCellCond::Normal);
    assert_eq!(normal.s, ConeCellCond::Normal);
}

#[test]
fn test_summary_index_usize() {
    let tritanopia = ConeCellSummary::new(
        ConeCellCond::Normal,
        ConeCellCond::Normal,
        ConeCellCond::Anomalous,
    );

    assert_eq!(tritanopia[0], tritanopia.l);
    assert_eq!(tritanopia[1], tritanopia.m);
    assert_eq!(tritanopia[2], tritanopia.s);
}

#[test]
fn test_summary_index_char() {
    let tritanopia = ConeCellSummary::new(
        ConeCellCond::Normal,
        ConeCellCond::Normal,
        ConeCellCond::Anomalous,
    );

    assert_eq!(tritanopia['l'], tritanopia.l);
    assert_eq!(tritanopia['m'], tritanopia.m);
    assert_eq!(tritanopia['s'], tritanopia.s);
}

#[test]
fn test_is_cv_red_green() {
    assert!(!ColorVision::Normal.is_red_green());
    assert!(ColorVision::Protanomaly.is_red_green());
    assert!(ColorVision::Protanopia.is_red_green());
    assert!(ColorVision::Deuteranomaly.is_red_green());
    assert!(ColorVision::Deuteranopia.is_red_green());
    assert!(!ColorVision::Tritanomaly.is_red_green());
    assert!(!ColorVision::Tritanopia.is_red_green());
    assert!(!ColorVision::Achromatomaly.is_red_green());
    assert!(!ColorVision::Achromatopsia.is_red_green());
}

#[test]
fn test_is_cv_blue_yellow() {
    assert!(!ColorVision::Normal.is_blue_yellow());
    assert!(!ColorVision::Protanomaly.is_blue_yellow());
    assert!(!ColorVision::Protanopia.is_blue_yellow());
    assert!(!ColorVision::Deuteranomaly.is_blue_yellow());
    assert!(!ColorVision::Deuteranopia.is_blue_yellow());
    assert!(ColorVision::Tritanomaly.is_blue_yellow());
    assert!(ColorVision::Tritanopia.is_blue_yellow());
    assert!(!ColorVision::Achromatomaly.is_blue_yellow());
    assert!(!ColorVision::Achromatopsia.is_blue_yellow());
}

#[test]
fn test_is_cv_protan() {
    assert!(!ColorVision::Normal.is_protan());
    assert!(ColorVision::Protanomaly.is_protan());
    assert!(ColorVision::Protanopia.is_protan());
    assert!(!ColorVision::Deuteranomaly.is_protan());
    assert!(!ColorVision::Deuteranopia.is_protan());
    assert!(!ColorVision::Tritanomaly.is_protan());
    assert!(!ColorVision::Tritanopia.is_protan());
    assert!(!ColorVision::Achromatomaly.is_protan());
    assert!(!ColorVision::Achromatopsia.is_protan());
}

#[test]
fn test_is_cv_deutan() {
    assert!(!ColorVision::Normal.is_deutan());
    assert!(!ColorVision::Protanomaly.is_deutan());
    assert!(!ColorVision::Protanopia.is_deutan());
    assert!(ColorVision::Deuteranomaly.is_deutan());
    assert!(ColorVision::Deuteranopia.is_deutan());
    assert!(!ColorVision::Tritanomaly.is_deutan());
    assert!(!ColorVision::Tritanopia.is_deutan());
    assert!(!ColorVision::Achromatomaly.is_deutan());
    assert!(!ColorVision::Achromatopsia.is_deutan());
}

#[test]
fn test_is_cv_tritan() {
    assert!(!ColorVision::Normal.is_tritan());
    assert!(!ColorVision::Protanomaly.is_tritan());
    assert!(!ColorVision::Protanopia.is_tritan());
    assert!(!ColorVision::Deuteranomaly.is_tritan());
    assert!(!ColorVision::Deuteranopia.is_tritan());
    assert!(ColorVision::Tritanomaly.is_tritan());
    assert!(ColorVision::Tritanopia.is_tritan());
    assert!(!ColorVision::Achromatomaly.is_tritan());
    assert!(!ColorVision::Achromatopsia.is_tritan());
}

#[test]
fn test_is_cv_monochromacy() {
    assert!(!ColorVision::Normal.is_monochromacy());
    assert!(!ColorVision::Protanomaly.is_monochromacy());
    assert!(!ColorVision::Protanopia.is_monochromacy());
    assert!(!ColorVision::Deuteranomaly.is_monochromacy());
    assert!(!ColorVision::Deuteranopia.is_monochromacy());
    assert!(!ColorVision::Tritanomaly.is_monochromacy());
    assert!(!ColorVision::Tritanopia.is_monochromacy());
    assert!(ColorVision::Achromatomaly.is_monochromacy());
    assert!(ColorVision::Achromatopsia.is_monochromacy());
}

#[test]
fn test_is_cv_anomalous_trichromacy() {
    assert!(!ColorVision::Normal.is_anomalous_trichromacy());
    assert!(ColorVision::Protanomaly.is_anomalous_trichromacy());
    assert!(!ColorVision::Protanopia.is_anomalous_trichromacy());
    assert!(ColorVision::Deuteranomaly.is_anomalous_trichromacy());
    assert!(!ColorVision::Deuteranopia.is_anomalous_trichromacy());
    assert!(ColorVision::Tritanomaly.is_anomalous_trichromacy());
    assert!(!ColorVision::Tritanopia.is_anomalous_trichromacy());
    assert!(!ColorVision::Achromatomaly.is_anomalous_trichromacy());
    assert!(!ColorVision::Achromatopsia.is_anomalous_trichromacy());
}

#[test]
fn test_is_dichromacy() {
    assert!(ColorVision::Protanopia.is_dichromacy());
    assert!(ColorVision::Deuteranopia.is_dichromacy());
    assert!(ColorVision::Tritanopia.is_dichromacy());
    assert!(!ColorVision::Normal.is_dichromacy());
    assert!(!ColorVision::Protanomaly.is_dichromacy());
    assert!(!ColorVision::Deuteranomaly.is_dichromacy());
    assert!(!ColorVision::Tritanomaly.is_dichromacy());
    assert!(!ColorVision::Achromatomaly.is_dichromacy());
    assert!(!ColorVision::Achromatopsia.is_dichromacy());
}

#[test]
fn summary_and_vision_correspond() {
    let protanomaly = ColorVision::Protanomaly;
    let summary = ConeCellSummary::from(protanomaly);
    assert_eq!(summary.long(), ConeCellCond::Anomalous);
    assert_eq!(summary.medium(), ConeCellCond::Normal);
    assert_eq!(summary.short(), ConeCellCond::Normal);
    assert!(!summary.is_cone_normal(ConeCell::Long));
    assert!(summary.red().is_anomalous());
    assert_eq!(summary.green(), ConeCellCond::Normal);
    assert!(summary['b'].is_normal());
    assert!(summary['B'].is_normal());
    assert_eq!(ColorVision::try_from(summary), Ok(ColorVision::Protanomaly));
    let odd = ConeCellSummary::new(ConeCellCond::Anomalous, ConeCellCond::Missing, ConeCellCond::Normal);
    assert_eq!(ColorVision::try_from(odd), Err(()));
    let achromatopsia = ConeCellSummary::from(ColorVision::Achromatopsia);
    assert!(achromatopsia.is_cone_missing(ConeCell::Short));
    assert_eq!(achromatopsia.as_array(), [ConeCellCond::Missing; 3]);
    assert_eq!(
        ConeCellSummary::rgb(ConeCellCond::Normal, ConeCellCond::Anomalous, ConeCellCond::Normal)
            .as_tuple(),
        (ConeCellCond::Normal, ConeCellCond::Anomalous, ConeCellCond::Normal)
    );
}

#[test]
fn cone_cells_from_letters() {
    assert_eq!(ConeCell::try_from('L'), Ok(ConeCell::Long));
    assert_eq!(ConeCell::try_from('r'), Ok(ConeCell::Long));
    assert_eq!(ConeCell::try_from('g'), Ok(ConeCell::Medium));
    assert_eq!(ConeCell::try_from('M'), Ok(ConeCell::Medium));
    assert_eq!(ConeCell::try_from('b'), Ok(ConeCell::Short));
    assert_eq!(ConeCell::try_from('S'), Ok(ConeCell::Short));
    assert_eq!(ConeCell::try_from('x'), Err(()));
    let s = ConeCellSummary::from((ConeCellCond::Missing, ConeCellCond::Normal, ConeCellCond::Normal));
    assert_eq!(ColorVision::try_from(s), Ok(ColorVision::Protanopia));
    let a = ConeCellSummary::from([ConeCellCond::Normal, ConeCellCond::Normal, ConeCellCond::Missing]);
    assert_eq!(ColorVision::try_from(a), Ok(ColorVision::Tritanopia));
}

#[test]
fn indexing_mutably_changes_one_cone() {
    let mut s = ConeCellSummary::from(ColorVision::Normal);
    s[1] = ConeCellCond::Missing;
    assert_eq!(s, ConeCellSummary::from(ColorVision::Deuteranopia));
    s['m'] = ConeCellCond::Normal;
    s['R'] = ConeCellCond::Anomalous;
    assert_eq!(s, ConeCellSummary::from(ColorVision::Protanomaly));
    s[0] = ConeCellCond::Normal;
    s[2] = ConeCellCond::Missing;
    assert_eq!(s, ConeCellSummary::from(ColorVision::Tritanopia));
}
