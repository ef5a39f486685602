//! The field reference: local housing stock and the intake network.
use vstd::prelude::*;

verus! {

/// Whether a property asks for a deposit: yes, no, or it has none at all.
#[derive(Debug, Clone, Copy, PartialEq, Eq)]
pub enum Tri {
    Yes,
    No,
    None_,
}

/// A row of the housing options table.
#[derive(Clone, Copy)]
pub struct HousingOption {
    pub name: &'static str,
    pub rent: &'static str,
    pub deposit: Tri,
    pub voucher: bool,
    pub transit: &'static str,
    pub note: &'static str,
}

/// A row of the intake network table.
#[derive(Clone, Copy)]
pub struct IntakeSite {
    pub name: &'static str,
    pub hours: &'static str,
    pub mode: &'static str,
    pub live_transfer: bool,
}

/// How many of the options accept vouchers.
pub open spec fn voucher_count(opts: Seq<HousingOption>) -> nat
    decreases opts.len(),
{
    if opts.len() == 0 {
        0
    } else {
        voucher_count(opts.drop_last()) + if opts.last().voucher { 1nat } else { 0nat }
    }
}

/// The rows of the housing options table, in display order.
pub open spec fn housing_table() -> Seq<HousingOption> {
    seq![
        HousingOption {
            name: "HumanKind Villas",
            rent: "$0",
            deposit: Tri::No,
            voucher: true,
            transit: "0.3 mi",
            note: "Housing First, no prerequisites. Rent = 30% of income. Waitlist is the only barrier.",
        },
        HousingOption {
            name: "NEXTenant — Riverside Commons",
            rent: "$725",
            deposit: Tri::Yes,
            voucher: true,
            transit: "0.8 mi",
            note: "Flexible screening. Deposit assistance via NEXTenant. Route 11 nearby.",
        },
        HousingOption {
            name: "NEXTenant — Prairie Wind",
            rent: "$695",
            deposit: Tri::Yes,
            voucher: true,
            transit: "1.2 mi",
            note: "1–2 units turn monthly. Landlord known for flexibility with formerly homeless tenants.",
        },
        HousingOption {
            name: "NEXTenant — Douglas Ave Flats",
            rent: "$775",
            deposit: Tri::Yes,
            voucher: true,
            transit: "0.4 mi",
            note: "Above fair-market value, but walkable to Open Door and Center of Hope.",
        },
        HousingOption {
            name: "VASH Housing — Wichita VA",
            rent: "$0",
            deposit: Tri::No,
            voucher: true,
            transit: "1.5 mi",
            note: "Veterans only. HUD-VASH voucher + VA case management. 52 placements in 2025.",
        },
        HousingOption {
            name: "Maple Ridge Apartments",
            rent: "$825",
            deposit: Tri::Yes,
            voucher: false,
            transit: "2.1 mi",
            note: "Private market baseline. Credit/income/background screening blocks most exiting homelessness.",
        },
        HousingOption {
            name: "Sunflower Court",
            rent: "$750",
            deposit: Tri::Yes,
            voucher: false,
            transit: "3.4 mi",
            note: "No vouchers. 2-year rental history required. Nearest bus stop 1.8 mi away.",
        },
        HousingOption {
            name: "Pawnee Crossing Duplexes",
            rent: "$650",
            deposit: Tri::Yes,
            voucher: true,
            transit: "4.2 mi",
            note: "Cheapest HCV option, but south Wichita location creates distance from intake + transit.",
        },
        HousingOption {
            name: "Central Park Towers",
            rent: "$950",
            deposit: Tri::Yes,
            voucher: false,
            transit: "0.2 mi",
            note: "Luxury downtown stock. Best access — functionally inaccessible to anyone exiting homelessness.",
        },
        HousingOption {
            name: "Hilltop Village",
            rent: "$575",
            deposit: Tri::None_,
            voucher: true,
            transit: "1.8 mi",
            note: "Project-based vouchers. No deposit. Lighter screening. Waitlist 4–6 weeks. Strong for families.",
        },
    ]
}

/// The housing options table, in display order. Seven of the ten accept
/// vouchers, as the reference page's context panel says.
pub fn housing_options() -> (v: [HousingOption; 10])
    ensures
        v@ == housing_table(),
        voucher_count(v@) == 7,
{
    let v = [
        HousingOption {
            name: "HumanKind Villas",
            rent: "$0",
            deposit: Tri::No,
            voucher: true,
            transit: "0.3 mi",
            note: "Housing First, no prerequisites. Rent = 30% of income. Waitlist is the only barrier.",
        },
        HousingOption {
            name: "NEXTenant — Riverside Commons",
            rent: "$725",
            deposit: Tri::Yes,
            voucher: true,
            transit: "0.8 mi",
            note: "Flexible screening. Deposit assistance via NEXTenant. Route 11 nearby.",
        },
        HousingOption {
            name: "NEXTenant — Prairie Wind",
            rent: "$695",
            deposit: Tri::Yes,
            voucher: true,
            transit: "1.2 mi",
            note: "1–2 units turn monthly. Landlord known for flexibility with formerly homeless tenants.",
        },
        HousingOption {
            name: "NEXTenant — Douglas Ave Flats",
            rent: "$775",
            deposit: Tri::Yes,
            voucher: true,
            transit: "0.4 mi",
            note: "Above fair-market value, but walkable to Open Door and Center of Hope.",
        },
        HousingOption {
            name: "VASH Housing — Wichita VA",
            rent: "$0",
            deposit: Tri::No,
            voucher: true,
            transit: "1.5 mi",
            note: "Veterans only. HUD-VASH voucher + VA case management. 52 placements in 2025.",
        },
        HousingOption {
            name: "Maple Ridge Apartments",
            rent: "$825",
            deposit: Tri::Yes,
            voucher: false,
            transit: "2.1 mi",
            note: "Private market baseline. Credit/income/background screening blocks most exiting homelessness.",
        },
        HousingOption {
            name: "Sunflower Court",
            rent: "$750",
            deposit: Tri::Yes,
            voucher: false,
            transit: "3.4 mi",
            note: "No vouchers. 2-year rental history required. Nearest bus stop 1.8 mi away.",
        },
        HousingOption {
            name: "Pawnee Crossing Duplexes",
            rent: "$650",
            deposit: Tri::Yes,
            voucher: true,
            transit: "4.2 mi",
            note: "Cheapest HCV option, but south Wichita location creates distance from intake + transit.",
        },
        HousingOption {
            name: "Central Park Towers",
            rent: "$950",
            deposit: Tri::Yes,
            voucher: false,
            transit: "0.2 mi",
            note: "Luxury downtown stock. Best access — functionally inaccessible to anyone exiting homelessness.",
        },
        HousingOption {
            name: "Hilltop Village",
            rent: "$575",
            deposit: Tri::None_,
            voucher: true,
            transit: "1.8 mi",
            note: "Project-based vouchers. No deposit. Lighter screening. Waitlist 4–6 weeks. Strong for families.",
        },
    ];
    assert(voucher_count(v@) == 7) by {
        reveal_with_fuel(voucher_count, 11);
        assert(v@.drop_last().drop_last().drop_last().drop_last().drop_last().drop_last().drop_last().drop_last().drop_last().drop_last() =~= Seq::<HousingOption>::empty());
    }
    v
}

/// The rows of the intake network table, in display order.
pub open spec fn intake_table() -> Seq<IntakeSite> {
    seq![
        IntakeSite { name: "211 Kansas / United Way", hours: "24/7", mode: "Phone", live_transfer: true },
        IntakeSite { name: "H.O.T. Team", hours: "Mon–Fri, 7AM–3:30PM", mode: "Walk-in", live_transfer: true },
        IntakeSite { name: "United Methodist Open Door", hours: "Mon–Fri, 8AM–4PM", mode: "Walk-in", live_transfer: true },
        IntakeSite { name: "CrossRoads Youth Intake", hours: "24/7", mode: "Walk-in", live_transfer: true },
        IntakeSite { name: "Second Light Coordinated Entry", hours: "Mon–Fri, 9AM–5PM", mode: "Walk-in", live_transfer: false },
        IntakeSite { name: "Family Promise Intake Line", hours: "Mon–Fri, 9AM–4PM", mode: "Phone", live_transfer: false },
        IntakeSite { name: "DCF Wichita Service Center", hours: "Mon–Fri, 8AM–5PM", mode: "Walk-in", live_transfer: false },
        IntakeSite { name: "Center of Hope", hours: "Mon–Fri, 9AM–3PM", mode: "Walk-in", live_transfer: true },
    ]
}

/// The intake network table, in display order. Only 211 Kansas and
/// CrossRoads Youth run 24/7.
pub fn intake_sites() -> (v: [IntakeSite; 8])
    ensures
        v@ == intake_table(),
        v@[0].name@ == "211 Kansas / United Way"@,
        v@[3].name@ == "CrossRoads Youth Intake"@,
        forall|i: int| 0 <= i < 8 ==> ((#[trigger] v@[i]).hours@ == "24/7"@ <==> (i == 0 || i == 3)),
{
    proof {
        reveal_strlit("24/7");
        reveal_strlit("Mon–Fri, 7AM–3:30PM");
        reveal_strlit("Mon–Fri, 8AM–4PM");
        reveal_strlit("Mon–Fri, 9AM–5PM");
        reveal_strlit("Mon–Fri, 9AM–4PM");
        reveal_strlit("Mon–Fri, 8AM–5PM");
        reveal_strlit("Mon–Fri, 9AM–3PM");
    }
    let v = [
        IntakeSite { name: "211 Kansas / United Way", hours: "24/7", mode: "Phone", live_transfer: true },
        IntakeSite { name: "H.O.T. Team", hours: "Mon–Fri, 7AM–3:30PM", mode: "Walk-in", live_transfer: true },
        IntakeSite { name: "United Methodist Open Door", hours: "Mon–Fri, 8AM–4PM", mode: "Walk-in", live_transfer: true },
        IntakeSite { name: "CrossRoads Youth Intake", hours: "24/7", mode: "Walk-in", live_transfer: true },
        IntakeSite { name: "Second Light Coordinated Entry", hours: "Mon–Fri, 9AM–5PM", mode: "Walk-in", live_transfer: false },
        IntakeSite { name: "Family Promise Intake Line", hours: "Mon–Fri, 9AM–4PM", mode: "Phone", live_transfer: false },
        IntakeSite { name: "DCF Wichita Service Center", hours: "Mon–Fri, 8AM–5PM", mode: "Walk-in", live_transfer: false },
        IntakeSite { name: "Center of Hope", hours: "Mon–Fri, 9AM–3PM", mode: "Walk-in", live_transfer: true },
    ];
    assert(v@[1].hours@ == "Mon–Fri, 7AM–3:30PM"@);
    assert(v@[1].hours@.len() != "24/7"@.len());
    assert(v@[2].hours@ == "Mon–Fri, 8AM–4PM"@);
    assert(v@[2].hours@.len() != "24/7"@.len());
    assert(v@[4].hours@ == "Mon–Fri, 9AM–5PM"@);
    assert(v@[4].hours@.len() != "24/7"@.len());
    assert(v@[5].hours@ == "Mon–Fri, 9AM–4PM"@);
    assert(v@[5].hours@.len() != "24/7"@.len());
    assert(v@[6].hours@ == "Mon–Fri, 8AM–5PM"@);
    assert(v@[6].hours@.len() != "24/7"@.len());
    assert(v@[7].hours@ == "Mon–Fri, 9AM–3PM"@);
    assert(v@[7].hours@.len() != "24/7"@.len());
    v
}

/// The deposit cell of the housing table: a pill class (or `muted` text)
/// and its label.
pub fn deposit_cell(tri: Tri) -> (r: (&'static str, &'static str))
    ensures
        tri == Tri::Yes ==> r.0@ == "pill pill--available"@ && r.1@ == "Yes"@,
        tri == Tri::No ==> r.0@ == "pill pill--exited"@ && r.1@ == "No"@,
        tri == Tri::None_ ==> r.0@ == "muted"@ && r.1@ == "None"@,
{
    match tri {
        Tri::Yes => ("pill pill--available", "Yes"),
        Tri::No => ("pill pill--exited", "No"),
        Tri::None_ => ("muted", "None"),
    }
}

} // verus!
