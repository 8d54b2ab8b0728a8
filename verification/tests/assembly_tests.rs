use pet_print::pdf::{
    page_attribute_keys, print_decision, save_decision, Assembly, AssemblyAction, AssemblyEvent,
    PdfPrintDetails, SaveDecision,
};

fn selection(path: &str, range: Option<Vec<i32>>) -> PdfPrintDetails {
    PdfPrintDetails {
        name: path.to_string(),
        pages: 0,
        size: 0,
        path: path.to_string(),
        print_range: range,
    }
}

/// Drive the machine as a faithful collaborator with the given page counts
/// would: report the requested source's count, confirm every copy and blank.
fn drive(mut a: Assembly, counts: &[i32]) -> Assembly {
    loop {
        match a.next_action() {
            AssemblyAction::OpenSource { index } => {
                a.step(AssemblyEvent::SourceOpened { page_count: counts[index] });
            }
            AssemblyAction::CopyPage { .. } => {
                a.step(AssemblyEvent::PageCopied);
            }
            AssemblyAction::AppendBlank => {
                a.step(AssemblyEvent::BlankAppended);
            }
            AssemblyAction::Finish | AssemblyAction::Abort => return a,
        }
    }
}

#[test]
fn empty_selection_yields_zero_pages() {
    let a = Assembly::new(vec![]);
    assert!(a.is_done());
    assert!(!a.is_failed());
    assert_eq!(a.page_total(), 0);
    assert_eq!(a.next_action(), AssemblyAction::Finish);
}

#[test]
fn odd_counts_padded_per_source() {
    // doc1 takes 3 pages -> 1 blank pad; doc2 takes 1 page -> 1 blank pad:
    // 3 + 1 + 1 + 1 = 6 pages, each source padded by its own taken count.
    let sels = vec![
        selection("/d/doc1.pdf", Some(vec![0, 1, 2])),
        selection("/d/doc2.pdf", Some(vec![0])),
    ];
    let a = drive(Assembly::new(sels), &[9, 9]);
    assert!(a.is_done());
    assert_eq!(a.page_total(), 6);
}

#[test]
fn even_count_needs_no_padding() {
    let sels = vec![selection("/d/doc.pdf", Some(vec![0, 1]))];
    let a = drive(Assembly::new(sels), &[5]);
    assert!(a.is_done());
    assert_eq!(a.page_total(), 2);
}

#[test]
fn implicit_range_takes_full_reported_count() {
    let sels = vec![selection("/d/doc.pdf", None)];
    let mut a = Assembly::new(sels);
    assert_eq!(a.next_action(), AssemblyAction::OpenSource { index: 0 });
    a.step(AssemblyEvent::SourceOpened { page_count: 2 });
    assert_eq!(a.next_action(), AssemblyAction::CopyPage { page: 0 });
    a.step(AssemblyEvent::PageCopied);
    assert_eq!(a.next_action(), AssemblyAction::CopyPage { page: 1 });
    a.step(AssemblyEvent::PageCopied);
    assert_eq!(a.next_action(), AssemblyAction::Finish);
    assert_eq!(a.page_total(), 2);
}

#[test]
fn duplicates_and_reordering_honored_verbatim() {
    let sels = vec![selection("/d/doc.pdf", Some(vec![2, 0, 2]))];
    let mut a = Assembly::new(sels);
    a.step(AssemblyEvent::SourceOpened { page_count: 3 });
    assert_eq!(a.next_action(), AssemblyAction::CopyPage { page: 2 });
    a.step(AssemblyEvent::PageCopied);
    assert_eq!(a.next_action(), AssemblyAction::CopyPage { page: 0 });
    a.step(AssemblyEvent::PageCopied);
    assert_eq!(a.next_action(), AssemblyAction::CopyPage { page: 2 });
    a.step(AssemblyEvent::PageCopied);
    // Three pages taken: one blank pad is owed before finishing.
    assert_eq!(a.next_action(), AssemblyAction::AppendBlank);
    a.step(AssemblyEvent::BlankAppended);
    assert_eq!(a.next_action(), AssemblyAction::Finish);
    assert_eq!(a.page_total(), 4);
}

#[test]
fn empty_explicit_range_contributes_nothing() {
    let sels = vec![selection("/d/doc.pdf", Some(vec![]))];
    let mut a = Assembly::new(sels);
    a.step(AssemblyEvent::SourceOpened { page_count: 8 });
    assert!(a.is_done());
    assert_eq!(a.page_total(), 0);
}

#[test]
fn zero_page_source_contributes_nothing() {
    let sels = vec![selection("/d/empty.pdf", None)];
    let mut a = Assembly::new(sels);
    a.step(AssemblyEvent::SourceOpened { page_count: 0 });
    assert!(a.is_done());
    assert_eq!(a.page_total(), 0);
}

#[test]
fn open_failure_aborts_whole_assembly() {
    let sels = vec![
        selection("/d/missing.pdf", Some(vec![0])),
        selection("/d/other.pdf", Some(vec![0])),
    ];
    let mut a = Assembly::new(sels);
    assert_eq!(a.next_action(), AssemblyAction::OpenSource { index: 0 });
    a.step(AssemblyEvent::StepFailed { error: "cannot open document".to_string() });
    assert!(a.is_failed());
    assert_eq!(a.next_action(), AssemblyAction::Abort);
    assert_eq!(a.failure_message().map(|m| m.as_str()), Some("cannot open document"));
}

#[test]
fn print_path_surfaces_assembly_error() {
    let mut a = Assembly::new(vec![selection("/d/missing.pdf", None)]);
    a.step(AssemblyEvent::StepFailed { error: "no such file".to_string() });
    assert_eq!(print_decision(&a), Err("no such file".to_string()));
}

#[test]
fn print_path_accepts_finished_assembly() {
    let a = drive(Assembly::new(vec![selection("/d/doc.pdf", Some(vec![0, 1]))]), &[2]);
    assert_eq!(print_decision(&a), Ok(()));
}

#[test]
fn save_path_swallows_assembly_error() {
    // The save path writes nothing and still reports success overall.
    let mut a = Assembly::new(vec![selection("/d/missing.pdf", None)]);
    a.step(AssemblyEvent::StepFailed { error: "no such file".to_string() });
    assert_eq!(save_decision(&a), SaveDecision::SkipSilently);
}

#[test]
fn save_path_writes_finished_assembly() {
    let a = drive(Assembly::new(vec![selection("/d/doc.pdf", Some(vec![0]))]), &[1]);
    assert_eq!(save_decision(&a), SaveDecision::WriteDocument);
}

#[test]
fn copy_failure_mid_source_aborts() {
    let mut a = Assembly::new(vec![selection("/d/doc.pdf", Some(vec![0, 7]))]);
    a.step(AssemblyEvent::SourceOpened { page_count: 3 });
    a.step(AssemblyEvent::PageCopied);
    assert_eq!(a.next_action(), AssemblyAction::CopyPage { page: 7 });
    a.step(AssemblyEvent::StepFailed { error: "page out of range".to_string() });
    assert!(a.is_failed());
    assert_eq!(a.next_action(), AssemblyAction::Abort);
}

#[test]
fn page_attribute_keys_are_the_four_direct_keys() {
    let keys = page_attribute_keys();
    assert_eq!(keys, vec!["MediaBox", "Rotate", "Resources", "Contents"]);
}
