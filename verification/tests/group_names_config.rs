use nemesis_merge::config::{
    DebugOptions, HackOptions, OutPutTarget, ReportType, Status, StatusReportCounter,
};
use nemesis_merge::group_names::{AAGroupName, UnknownGroupName};

#[test]
fn group_name_roundtrip() {
    let all = [
        AAGroupName::MtIdle,
        AAGroupName::OneHmIdle,
        AAGroupName::TwoHmIdle,
        AAGroupName::DagEqp,
        AAGroupName::Shout,
        AAGroupName::DW,
        AAGroupName::Shield,
    ];
    for g in all {
        assert_eq!(AAGroupName::from_fnis_str(g.as_fnis_str()), Ok(g));
        let parsed: AAGroupName = g.as_fnis_str().parse().unwrap();
        assert_eq!(parsed, g);
    }
}

#[test]
fn group_name_ignores_ascii_case() {
    assert_eq!(AAGroupName::from_fnis_str("_1HMEQP"), Ok(AAGroupName::OneHmEqp));
    assert_eq!(AAGroupName::from_fnis_str("_MtIdle"), Ok(AAGroupName::MtIdle));
}

#[test]
fn group_name_unknown() {
    assert_eq!(
        AAGroupName::from_fnis_str("_flying"),
        Err(UnknownGroupName { message: "_flying".to_string() })
    );
    assert!(AAGroupName::from_fnis_str("").is_err());
    assert!(AAGroupName::from_fnis_str("_1hmeqp ").is_err());
}

#[test]
fn group_ids_match_papyrus_constants() {
    assert_eq!(AAGroupName::MtIdle.group_id(), 0);
    assert_eq!(AAGroupName::StaffIdle.group_id(), 9);
    assert_eq!(AAGroupName::MagMt.group_id(), 16);
    assert_eq!(AAGroupName::OneHmAtk.group_id(), 19);
    assert_eq!(AAGroupName::OneHmEqp.group_id(), 37);
    assert_eq!(AAGroupName::Shield.group_id(), 53);
    assert_eq!(AAGroupName::OneHmEqp.as_fnis_str(), "_1hmeqp");
}

#[test]
fn option_defaults() {
    assert!(HackOptions::enable_all().cast_ragdoll_event);
    assert!(!HackOptions::default().cast_ragdoll_event);
    assert_eq!(
        DebugOptions::default(),
        DebugOptions { output_patch_json: true, output_merged_json: true, output_merged_xml: false }
    );
    assert_eq!(
        DebugOptions::enable_all(),
        DebugOptions { output_patch_json: true, output_merged_json: true, output_merged_xml: true }
    );
    assert_eq!(OutPutTarget::default(), OutPutTarget::SkyrimSe);
}

#[test]
fn status_messages() {
    assert_eq!(
        Status::ReadingPatches { index: 3, total: 10 }.message(),
        "[2/6] Reading templates and patches...(3/10)"
    );
    assert_eq!(
        Status::GeneratingFnisPatches { index: 0, total: 100 }.message(),
        "[1/6] Generating FNIS patches...(0/100)"
    );
    assert_eq!(
        Status::ParsingPatches { index: 12, total: 345 }.message(),
        "[3/6] Parsing patches...(12/345)"
    );
    assert_eq!(
        Status::ApplyingPatches { index: 1, total: 2 }.message(),
        "[4/6] Applying patches...(1/2)"
    );
    assert_eq!(
        Status::GeneratingHkxFiles { index: 9, total: 90 }.message(),
        "[5/6] Generating .hkx files...(9/90)"
    );
    assert_eq!(Status::Done.message(), "[6/6] Done.");
    assert_eq!(Status::Error("Error message".to_string()).message(), "[Error] Error message");
}

#[test]
fn status_report_counter_counts_up() {
    let mut counter = StatusReportCounter::new(ReportType::ApplyingPatches, 3);
    assert_eq!(counter.status(), Status::ApplyingPatches { index: 0, total: 3 });
    assert_eq!(counter.increment(), Status::ApplyingPatches { index: 1, total: 3 });
    assert_eq!(counter.increment(), Status::ApplyingPatches { index: 2, total: 3 });
    assert_eq!(counter.status(), Status::ApplyingPatches { index: 2, total: 3 });

    let mut hkx = StatusReportCounter::new(ReportType::GeneratingHkxFiles, 1);
    assert_eq!(hkx.increment(), Status::GeneratingHkxFiles { index: 1, total: 1 });
}

#[test]
fn group_names_parse_in_upper_case() {
    use_upper_case_names();
}

fn use_upper_case_names() {
    for g in [AAGroupName::MtIdle, AAGroupName::OneHmEqp, AAGroupName::H2HAtkPow, AAGroupName::Shield] {
        let upper = nemesis_merge::text::to_ascii_uppercase(g.as_fnis_str());
        assert_eq!(upper, g.as_fnis_str().to_ascii_uppercase());
        assert_eq!(upper.parse::<AAGroupName>(), Ok(g));
        assert_eq!(g.as_fnis_str().parse::<AAGroupName>(), Ok(g));
    }
}

#[test]
fn counter_reports_each_index_once() {
    let mut counter = StatusReportCounter::new(ReportType::GeneratingFnisPatches, 5);
    let reports: Vec<Status> = (0..5).map(|_| counter.increment()).collect();
    let expected: Vec<Status> =
        (1..=5).map(|index| Status::GeneratingFnisPatches { index, total: 5 }).collect();
    assert_eq!(reports, expected);
}
