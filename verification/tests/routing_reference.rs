use wichita_housing_logistics::reference::{deposit_cell, housing_options, intake_sites, Tri};
use wichita_housing_logistics::routing::{
    feasibility_hint, intake_for, leading_indices, match_headline, match_rationale, properties,
    rank_label, score_all, score_one,
};

const ALL_WITHIN: [bool; 10] = [true; 10];

#[test]
fn vash_housing_is_for_veterans_only() {
    let p = properties()[2];
    let m = score_one(&p, 1000, "hcv", 1000, true, "single");
    assert_eq!(m.score, 0);
    assert_eq!(m.reasons, vec!["veterans only".to_string()]);
    let m = score_one(&p, 1000, "vash", 0, true, "veteran");
    // 50 + 15 voucher + 25 $0 rent + 10 no deposit + 8 distance + 5 + 20 VASH = 133, clamped.
    assert_eq!(m.score, 100);
    assert_eq!(m.reasons, vec!["voucher match", "$0 rent", "no deposit"]);
}

#[test]
fn scores_add_up_term_by_term() {
    let props = properties();
    // Central Park Towers: no voucher, rent 950, deposit, 0.2 mi.
    let m = score_one(&props[9], 2000, "none", 0, true, "single");
    // 50 - 35 income below 3x rent - 15 deposit gap + 8 distance = 8
    assert_eq!(m.score, 8);
    assert_eq!(m.reasons, vec!["income below 3× rent", "deposit gap"]);
    let m = score_one(&props[9], 2000, "hcv", 950, false, "family");
    // 50 - 20 no voucher accepted - 12 beyond distance + 0 (not family housing) = 18
    assert_eq!(m.score, 18);
    assert_eq!(m.reasons, vec!["no voucher accepted", "beyond max distance"]);
    // Pawnee Crossing for a youth: 50 + 15 - 15 + 8 - 10 = 48
    let m = score_one(&props[5], 500, "hcv", 100, true, "youth");
    assert_eq!(m.score, 48);
    assert!(m.score >= 0 && m.score <= 100);
}

#[test]
fn stress_mode_prefers_zero_move_in_options() {
    for voucher in ["none", "hcv", "vash"] {
        for family in ["single", "family", "youth", "veteran"] {
            for within in [[true; 10], [false; 10]] {
                let r = score_all(0, voucher, 0, &within, family, "after");
                let names: Vec<&str> = r.top.iter().map(|m| m.name).collect();
                assert!(names.contains(&"HumanKind Villas"), "{voucher} {family} {names:?}");
                assert!(names.contains(&"Hilltop Village"), "{voucher} {family} {names:?}");
            }
        }
    }
}

#[test]
fn the_leader_has_the_best_score() {
    let r = score_all(2500, "none", 800, &ALL_WITHIN, "family", "biz");
    assert_eq!(r.top.len(), 3);
    assert!(r.top[0].score >= r.top[1].score && r.top[1].score >= r.top[2].score);
    let props = properties();
    for p in props.iter() {
        let s = score_one(p, 2500, "none", 800, true, "family").score;
        assert!(s <= r.top_score);
    }
    assert_eq!(r.top_score, r.top[0].score);
    assert_eq!(r.hint, feasibility_hint(r.top_score));
    assert_eq!(
        r.summary,
        format!("{} leads ({}/100). {}.", r.top[0].name, r.top_score, r.hint)
    );
}

#[test]
fn ties_keep_catalog_order() {
    let top = leading_indices(&vec![5, 9, 9, 1, 9], 3);
    assert_eq!(top, vec![1, 2, 4]);
    let top = leading_indices(&vec![3, 3], 3);
    assert_eq!(top, vec![0, 1]);
    assert!(leading_indices(&vec![], 3).is_empty());
}

#[test]
fn zero_income_single_adult_ranking() {
    let r = score_all(0, "none", 0, &ALL_WITHIN, "single", "biz");
    assert_eq!(r.top[0].name, "HumanKind Villas");
    assert_eq!(r.top[0].score, 100);
    assert_eq!(r.top[1].name, "Hilltop Village");
    // 50 + 10 no deposit + 8 distance + 15 stress-mode = 83
    assert_eq!(r.top[1].score, 83);
    assert_eq!(r.summary, "HumanKind Villas leads (100/100). feasible · proceed to placement.");
}

#[test]
fn hints_follow_the_score_bands() {
    assert_eq!(feasibility_hint(70), "feasible · proceed to placement");
    assert_eq!(feasibility_hint(69), "feasible with assistance");
    assert_eq!(feasibility_hint(45), "feasible with assistance");
    assert_eq!(feasibility_hint(44), "structural barriers — escalate");
}

#[test]
fn where_to_start() {
    assert_eq!(
        intake_for("veteran", "biz"),
        vec![
            ("VASH Housing — Wichita VA", "veterans only · HUD-VASH + VA case mgmt"),
            ("H.O.T. Team", "M–F 7:00–15:30 · live transfer"),
            ("Center of Hope", "reduced hours · Open Door overflow"),
        ]
    );
    assert_eq!(
        intake_for("youth", "biz"),
        vec![
            ("CrossRoads Youth Intake", "24/7 walk-in · hold capacity for DCF youth"),
            ("211 Kansas", "24/7 phone · live transfer · overloaded today"),
        ]
    );
    assert_eq!(
        intake_for("single", "after"),
        vec![("211 Kansas", "24/7 phone · live transfer · overloaded today")]
    );
}

#[test]
fn match_display_text() {
    assert_eq!(rank_label(0, 83), "01 · 83");
    assert_eq!(rank_label(11, 7), "12 · 7");
    let props = properties();
    let m = score_one(&props[5], 0, "hcv", 0, false, "single");
    assert_eq!(match_headline(&m), "Pawnee Crossing Duplexes · $650 + dep · 4.2 mi");
    let m0 = score_one(&props[0], 0, "none", 0, true, "single");
    assert_eq!(match_headline(&m0), "HumanKind Villas · $0 · 0.3 mi");
    assert_eq!(match_rationale(&m0), "$0 rent · no deposit · stress-mode preferred");
    let plain = score_one(&props[3], 5000, "none", 5000, true, "single");
    assert!(plain.reasons.is_empty());
    assert_eq!(match_rationale(&plain), "baseline match");
}

#[test]
fn reference_panel_figures_match_the_catalog() {
    let props = properties();
    let mut rents: Vec<u32> = props.iter().map(|p| p.rent).filter(|r| *r > 0).collect();
    rents.sort();
    assert_eq!((rents[0], rents[rents.len() - 1]), (575, 950));
    let median = f64::from(rents[3] + rents[4]) / 2.0;
    assert_eq!(median.round(), 738.0);
    let avg = f64::from(rents.iter().sum::<u32>()) / rents.len() as f64;
    assert_eq!(avg.round(), 743.0);
    assert_eq!(props.iter().filter(|p| p.voucher).count(), 7);
    assert_eq!(housing_options().iter().filter(|o| o.voucher).count(), 7);
}

#[test]
fn only_two_intake_sites_run_around_the_clock() {
    let always: Vec<&str> = intake_sites().iter().filter(|s| s.hours == "24/7").map(|s| s.name).collect();
    assert_eq!(always, vec!["211 Kansas / United Way", "CrossRoads Youth Intake"]);
}

#[test]
fn deposit_cells() {
    assert_eq!(deposit_cell(Tri::Yes), ("pill pill--available", "Yes"));
    assert_eq!(deposit_cell(Tri::No), ("pill pill--exited", "No"));
    assert_eq!(deposit_cell(Tri::None_), ("muted", "None"));
}
