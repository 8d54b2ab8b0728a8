//! Document assembler: merges pages selected from independent source
//! documents into one destination document, padding each odd-count
//! contribution with a blank page so every source starts on a fresh sheet
//! side under duplex printing.
//!
//! The document collaborator (open, graft, insert, blank-page primitives)
//! lives outside this crate; the assembler is an explicit machine that tells
//! the caller which primitive to run next and consumes the outcome, so every
//! decision — page order, per-source padding, abort-on-failure — is made and
//! accounted for here.
use vstd::prelude::*;
use vstd::string::StringExecFns;

verus! {

/// One print selection: a source document plus an optional explicit, possibly
/// reordered or repeated, list of zero-based page indices to include.
#[derive(Clone, Debug)]
pub struct PdfPrintDetails {
    pub name: String,
    pub pages: i32,
    pub size: u64,
    pub path: String,
    pub print_range: Option<Vec<i32>>,
}

/// What the caller must ask the document collaborator to do next.
#[derive(Clone, Copy, Debug, PartialEq, Eq, Structural)]
pub enum AssemblyAction {
    /// Open the source of the given selection and report its page count.
    OpenSource { index: usize },
    /// Graft this page of the open source onto the destination's end.
    CopyPage { page: i32 },
    /// Append one blank page of the fixed standard size (duplex padding).
    AppendBlank,
    /// Assembly is complete; the destination document is the result.
    Finish,
    /// Assembly failed; no destination document may be observed.
    Abort,
}

/// The outcome the caller reports after performing the requested action.
#[derive(Clone, Debug)]
pub enum AssemblyEvent {
    SourceOpened { page_count: i32 },
    PageCopied,
    BlankAppended,
    StepFailed { error: String },
}

/// The assembler's control state.
#[derive(Clone, Debug)]
pub enum AssemblyPhase {
    /// The current selection's source must be opened.
    Opening,
    /// Pages of the current selection are being copied.
    Copying,
    /// The current selection took an odd page count; a blank page is owed.
    Padding,
    /// Every selection has been processed.
    Done,
    /// A step failed; the whole assembly is aborted.
    Failed,
}

/// Duplex padding rule: a source that contributed an odd number of pages gets
/// one blank page appended.
pub open spec fn padded_len(k: int) -> int {
    if k % 2 == 1 {
        k + 1
    } else {
        k
    }
}

/// Total destination pages after padding each source's contribution
/// independently.
pub open spec fn padded_sum(s: Seq<int>) -> int
    decreases s.len(),
{
    if s.len() == 0 {
        0
    } else {
        padded_sum(s.drop_last()) + padded_len(s.last())
    }
}

/// The per-source taken counts recorded so far are consistent with the
/// selections: non-negative, and equal to the explicit list's length wherever
/// the selection gave one.
pub open spec fn taken_ok(taken: Seq<int>, sels: Seq<PdfPrintDetails>) -> bool {
    &&& taken.len() <= sels.len()
    &&& forall|i: int|
        0 <= i < taken.len() ==> (#[trigger] taken[i]) >= 0 && (match sels[i].print_range {
            Some(r) => taken[i] == r@.len(),
            None => true,
        })
}

/// Length of a selection's explicit page list (zero when none was given).
pub open spec fn explicit_len(s: PdfPrintDetails) -> int {
    match s.print_range {
        Some(r) => r@.len() as int,
        None => 0,
    }
}

/// The explicit page-list lengths of a selection sequence.
pub open spec fn explicit_lens(sels: Seq<PdfPrintDetails>) -> Seq<int> {
    Seq::new(sels.len(), |i: int| explicit_len(sels[i]))
}

/// The page plan of one selection: the explicit list if present, else the
/// full ascending range of the reported page count.
pub open spec fn planned_seq(s: PdfPrintDetails, reported: i32) -> Seq<i32> {
    match s.print_range {
        Some(r) => r@,
        None => Seq::new(
            (if reported > 0 {
                reported as int
            } else {
                0
            }) as nat,
            |i: int| i as i32,
        ),
    }
}

/// Appending one source's taken count keeps the record consistent with the
/// selections.
proof fn lemma_taken_push(taken: Seq<int>, sels: Seq<PdfPrintDetails>, sel: int, x: int)
    requires
        taken_ok(taken, sels),
        taken.len() == sel,
        0 <= sel < sels.len(),
        x >= 0,
        match sels[sel].print_range {
            Some(r) => x == r@.len(),
            None => true,
        },
    ensures
        taken_ok(taken.push(x), sels),
{
    assert forall|i: int| 0 <= i < taken.push(x).len() implies (#[trigger] taken.push(x)[i]) >= 0
        && (match sels[i].print_range {
        Some(r) => taken.push(x)[i] == r@.len(),
        None => true,
    }) by {
        if i < taken.len() {
            assert(taken.push(x)[i] == taken[i]);
        } else {
            assert(taken.push(x)[i] == x);
        }
    }
}

/// The assembler: one per assembly call, owning all decisions while the
/// caller runs the document collaborator's primitives.
pub struct Assembly {
    pub selections: Vec<PdfPrintDetails>,
    /// Index of the selection being processed.
    pub sel: usize,
    pub phase: AssemblyPhase,
    /// Page plan of the selection being copied (meaningful while `Copying`).
    pub plan: Vec<i32>,
    /// Position of the next page within `plan`.
    pub pos: usize,
    /// The error that aborted the assembly (exactly when `Failed`).
    pub error: Option<String>,
    /// Pages the destination document holds after the steps so far.
    pub dest_pages: u64,
    /// Pages taken from each fully processed source.
    pub taken: Ghost<Seq<int>>,
}

impl Assembly {
    /// Well-formedness: the destination page count always equals the padded
    /// sum of finished sources plus the current source's progress.
    pub open spec fn wf(&self) -> bool {
        &&& taken_ok(self.taken@, self.selections@)
        &&& (self.phase is Failed <==> self.error is Some)
        &&& match self.phase {
            AssemblyPhase::Opening => {
                &&& self.sel < self.selections@.len()
                &&& self.taken@.len() == self.sel
                &&& self.dest_pages as int == padded_sum(self.taken@)
            },
            AssemblyPhase::Copying => {
                &&& self.sel < self.selections@.len()
                &&& self.taken@.len() == self.sel
                &&& self.pos < self.plan@.len()
                &&& (match self.selections@[self.sel as int].print_range {
                    Some(r) => self.plan@ == r@,
                    None => forall|i: int|
                        0 <= i < self.plan@.len() ==> (#[trigger] self.plan@[i]) == i as i32,
                })
                &&& self.dest_pages as int == padded_sum(self.taken@) + self.pos
            },
            AssemblyPhase::Padding => {
                &&& self.sel < self.selections@.len()
                &&& self.taken@.len() == self.sel + 1
                &&& self.taken@.last() % 2 == 1
                &&& self.dest_pages as int == padded_sum(self.taken@.drop_last())
                    + self.taken@.last()
            },
            AssemblyPhase::Done => {
                &&& self.sel == self.selections@.len()
                &&& self.taken@.len() == self.selections@.len()
                &&& self.dest_pages as int == padded_sum(self.taken@)
            },
            AssemblyPhase::Failed => true,
        }
    }

    /// The machine moved past one fully accounted selection: on to the next
    /// source, or done when it was the last.
    pub open spec fn advanced(pre: Assembly, post: Assembly) -> bool {
        &&& post.sel == pre.sel + 1
        &&& (post.phase is Done <==> post.sel == pre.selections@.len())
        &&& (post.phase is Done || post.phase is Opening)
    }

    /// Start assembling the given selections. An empty selection list is
    /// already complete: the destination holds zero pages and no error.
    pub fn new(selections: Vec<PdfPrintDetails>) -> (a: Assembly)
        ensures
            a.wf(),
            a.selections == selections,
            a.dest_pages == 0,
            a.error is None,
            selections@.len() == 0 ==> a.phase is Done,
            selections@.len() > 0 ==> a.phase is Opening && a.sel == 0,
    {
        let empty = selections.len() == 0;
        Assembly {
            selections,
            sel: 0,
            phase: if empty {
                AssemblyPhase::Done
            } else {
                AssemblyPhase::Opening
            },
            plan: Vec::new(),
            pos: 0,
            error: None,
            dest_pages: 0,
            taken: Ghost(Seq::empty()),
        }
    }

    /// The next primitive the caller must run, determined by the phase.
    pub fn next_action(&self) -> (a: AssemblyAction)
        requires
            self.wf(),
        ensures
            match self.phase {
                AssemblyPhase::Opening => a == (AssemblyAction::OpenSource { index: self.sel }),
                AssemblyPhase::Copying => a == (AssemblyAction::CopyPage {
                    page: self.plan@[self.pos as int],
                }),
                AssemblyPhase::Padding => a == AssemblyAction::AppendBlank,
                AssemblyPhase::Done => a == AssemblyAction::Finish,
                AssemblyPhase::Failed => a == AssemblyAction::Abort,
            },
    {
        match self.phase {
            AssemblyPhase::Opening => AssemblyAction::OpenSource { index: self.sel },
            AssemblyPhase::Copying => AssemblyAction::CopyPage { page: self.plan[self.pos] },
            AssemblyPhase::Padding => AssemblyAction::AppendBlank,
            AssemblyPhase::Done => AssemblyAction::Finish,
            AssemblyPhase::Failed => AssemblyAction::Abort,
        }
    }

    /// Path of the source the caller must open next.
    pub fn current_path(&self) -> (p: &String)
        requires
            self.wf(),
            self.phase is Opening,
        ensures
            p@ == self.selections@[self.sel as int].path@,
    {
        &self.selections[self.sel].path
    }

    /// Consume the outcome of the action that was asked for. A failed step
    /// aborts the whole assembly with that error; no partial result survives.
    pub fn step(&mut self, ev: AssemblyEvent)
        requires
            old(self).wf(),
            match old(self).phase {
                AssemblyPhase::Opening => ev is SourceOpened || ev is StepFailed,
                AssemblyPhase::Copying => ev is PageCopied || ev is StepFailed,
                AssemblyPhase::Padding => ev is BlankAppended || ev is StepFailed,
                AssemblyPhase::Done => false,
                AssemblyPhase::Failed => false,
            },
        ensures
            final(self).wf(),
            final(self).selections == old(self).selections,
            final(self).phase is Failed ==> (ev is StepFailed || old(self).dest_pages
                == u64::MAX),
            (match ev {
                AssemblyEvent::StepFailed { error } => final(self).phase is Failed
                    && final(self).error == Some(error) && final(self).dest_pages == old(
                    self,
                ).dest_pages,
                AssemblyEvent::SourceOpened { page_count } => {
                    let plan = planned_seq(
                        old(self).selections@[old(self).sel as int],
                        page_count,
                    );
                    &&& final(self).dest_pages == old(self).dest_pages
                    &&& if plan.len() == 0 {
                        final(self).taken@ == old(self).taken@.push(0) && Self::advanced(
                            *old(self),
                            *final(self),
                        )
                    } else {
                        &&& final(self).phase is Copying
                        &&& final(self).sel == old(self).sel
                        &&& final(self).pos == 0
                        &&& final(self).plan@ == plan
                        &&& final(self).taken == old(self).taken
                    }
                },
                AssemblyEvent::PageCopied => {
                    if old(self).dest_pages == u64::MAX {
                        final(self).phase is Failed
                    } else {
                        &&& final(self).dest_pages == old(self).dest_pages + 1
                        &&& if old(self).pos + 1 < old(self).plan@.len() {
                            &&& final(self).phase is Copying
                            &&& final(self).sel == old(self).sel
                            &&& final(self).pos == old(self).pos + 1
                            &&& final(self).plan == old(self).plan
                            &&& final(self).taken == old(self).taken
                        } else if old(self).plan@.len() % 2 == 1 {
                            &&& final(self).phase is Padding
                            &&& final(self).sel == old(self).sel
                            &&& final(self).taken@ == old(self).taken@.push(
                                old(self).plan@.len() as int,
                            )
                        } else {
                            final(self).taken@ == old(self).taken@.push(
                                old(self).plan@.len() as int,
                            ) && Self::advanced(*old(self), *final(self))
                        }
                    }
                },
                AssemblyEvent::BlankAppended => {
                    if old(self).dest_pages == u64::MAX {
                        final(self).phase is Failed
                    } else {
                        &&& final(self).dest_pages == old(self).dest_pages + 1
                        &&& final(self).taken == old(self).taken
                        &&& Self::advanced(*old(self), *final(self))
                    }
                },
            }),
    {
        match ev {
            AssemblyEvent::StepFailed { error } => {
                self.phase = AssemblyPhase::Failed;
                self.error = Some(error);
            },
            AssemblyEvent::SourceOpened { page_count } => {
                let plan: Vec<i32> = match &self.selections[self.sel].print_range {
                    Some(r) => clone_pages(r),
                    None => ascending_range(page_count),
                };
                if plan.len() == 0 {
                    proof {
                        assert(self.taken@.push(0).drop_last() =~= self.taken@);
                        lemma_taken_push(self.taken@, self.selections@, self.sel as int, 0);
                    }
                    self.taken = Ghost(self.taken@.push(0));
                    self.advance_selection();
                } else {
                    self.plan = plan;
                    self.pos = 0;
                    self.phase = AssemblyPhase::Copying;
                }
            },
            AssemblyEvent::PageCopied => {
                if self.dest_pages == u64::MAX {
                    self.fail_capacity();
                } else {
                    proof {
                        assert(self.plan.len() == self.plan@.len());
                    }
                    self.dest_pages = self.dest_pages + 1;
                    self.pos = self.pos + 1;
                    if self.pos == self.plan.len() {
                        let t = self.plan.len();
                        proof {
                            assert(self.taken@.push(t as int).drop_last() =~= self.taken@);
                            lemma_taken_push(
                                self.taken@,
                                self.selections@,
                                self.sel as int,
                                t as int,
                            );
                        }
                        self.taken = Ghost(self.taken@.push(t as int));
                        if t % 2 == 1 {
                            self.phase = AssemblyPhase::Padding;
                        } else {
                            self.advance_selection();
                        }
                    }
                }
            },
            AssemblyEvent::BlankAppended => {
                if self.dest_pages == u64::MAX {
                    self.fail_capacity();
                } else {
                    self.dest_pages = self.dest_pages + 1;
                    self.advance_selection();
                }
            },
        }
    }

    /// Move to the next selection once the current one (padding included) is
    /// fully accounted for.
    fn advance_selection(&mut self)
        requires
            old(self).sel < old(self).selections@.len(),
            old(self).taken@.len() == old(self).sel + 1,
            taken_ok(old(self).taken@, old(self).selections@),
            old(self).error is None,
            old(self).dest_pages as int == padded_sum(old(self).taken@),
        ensures
            final(self).wf(),
            final(self).selections == old(self).selections,
            final(self).taken == old(self).taken,
            final(self).dest_pages == old(self).dest_pages,
            final(self).error is None,
            Self::advanced(*old(self), *final(self)),
    {
        proof {
            assert(self.selections.len() == self.selections@.len());
        }
        self.sel = self.sel + 1;
        self.phase = if self.sel == self.selections.len() {
            AssemblyPhase::Done
        } else {
            AssemblyPhase::Opening
        };
    }

    /// Abort because the destination page counter cannot grow further.
    fn fail_capacity(&mut self)
        ensures
            final(self).phase is Failed,
            final(self).error is Some,
            final(self).selections == old(self).selections,
            final(self).taken == old(self).taken,
            final(self).dest_pages == old(self).dest_pages,
    {
        self.phase = AssemblyPhase::Failed;
        self.error = Some(String::from_str("destination page capacity exhausted"));
    }

    /// Pages the destination document holds after the steps so far.
    pub fn page_total(&self) -> (r: u64)
        ensures
            r == self.dest_pages,
    {
        self.dest_pages
    }

    pub fn is_done(&self) -> (r: bool)
        ensures
            r == (self.phase is Done),
    {
        match self.phase {
            AssemblyPhase::Done => true,
            _ => false,
        }
    }

    pub fn is_failed(&self) -> (r: bool)
        ensures
            r == (self.phase is Failed),
    {
        match self.phase {
            AssemblyPhase::Failed => true,
            _ => false,
        }
    }

    /// The error that aborted the assembly, if it failed.
    pub fn failure_message(&self) -> (r: Option<&String>)
        requires
            self.wf(),
        ensures
            match r {
                Some(m) => self.phase is Failed && self.error == Some(*m),
                None => !(self.phase is Failed),
            },
    {
        match self.phase {
            AssemblyPhase::Failed => match &self.error {
                Some(m) => Some(m),
                None => vstd::pervasive::unreached(),
            },
            _ => None,
        }
    }
}

/// Copy an explicit page list so the plan can be consumed independently.
fn clone_pages(v: &Vec<i32>) -> (r: Vec<i32>)
    ensures
        r@ == v@,
{
    let mut r: Vec<i32> = Vec::new();
    let mut i: usize = 0;
    while i < v.len()
        invariant
            i <= v@.len(),
            r@ == v@.take(i as int),
        decreases v@.len() - i,
    {
        r.push(v[i]);
        i = i + 1;
        proof {
            assert(v@.take(i as int).drop_last() =~= v@.take(i - 1));
        }
    }
    proof {
        assert(v@.take(v@.len() as int) =~= v@);
    }
    r
}

/// The default page plan when no explicit list was given: the full range of
/// the reported page count, ascending.
fn ascending_range(n: i32) -> (r: Vec<i32>)
    ensures
        r@.len() == (if n > 0 {
            n as int
        } else {
            0
        }),
        forall|i: int| 0 <= i < r@.len() ==> (#[trigger] r@[i]) == i as i32,
{
    let mut r: Vec<i32> = Vec::new();
    let mut i: i32 = 0;
    while i < n
        invariant
            0 <= i,
            n > 0 ==> i <= n,
            n <= 0 ==> i == 0,
            r@.len() == i as int,
            forall|j: int| 0 <= j < r@.len() ==> (#[trigger] r@[j]) == j as i32,
        decreases n - i,
    {
        r.push(i);
        i = i + 1;
    }
    r
}

/// A finished assembly over fully explicit selections holds exactly the
/// padded sum of the selections' page-list lengths: padding is applied per
/// source, by that source's own taken count, never by the running total.
pub proof fn lemma_done_page_total(a: Assembly)
    requires
        a.wf(),
        a.phase is Done,
        forall|i: int|
            0 <= i < a.selections@.len() ==> (#[trigger] a.selections@[i].print_range) is Some,
    ensures
        a.dest_pages as int == padded_sum(explicit_lens(a.selections@)),
{
    assert(a.taken@ =~= explicit_lens(a.selections@));
}

/// The attribute keys copied from a source page onto its new destination
/// page, in graft order. Exactly these four direct keys are grafted; keys the
/// source page does not define are omitted, and inherited page attributes are
/// deliberately not resolved from ancestor nodes.
pub fn page_attribute_keys() -> (r: Vec<&'static str>)
    ensures
        r@.len() == 4,
        r@[0]@ == "MediaBox"@,
        r@[1]@ == "Rotate"@,
        r@[2]@ == "Resources"@,
        r@[3]@ == "Contents"@,
{
    let mut r: Vec<&'static str> = Vec::new();
    r.push("MediaBox");
    r.push("Rotate");
    r.push("Resources");
    r.push("Contents");
    r
}

/// What the save path does with a finished or failed assembly.
#[derive(Clone, Copy, Debug, PartialEq, Eq, Structural)]
pub enum SaveDecision {
    WriteDocument,
    SkipSilently,
}

/// Save path: an assembly failure is swallowed — nothing is written and the
/// operation still reports success to its caller.
pub fn save_decision(a: &Assembly) -> (r: SaveDecision)
    requires
        a.phase is Done || a.phase is Failed,
    ensures
        (r == SaveDecision::WriteDocument) <==> a.phase is Done,
{
    match a.phase {
        AssemblyPhase::Done => SaveDecision::WriteDocument,
        _ => SaveDecision::SkipSilently,
    }
}

/// Print path: an assembly failure is surfaced to the caller as the error
/// that aborted the assembly.
pub fn print_decision(a: &Assembly) -> (r: Result<(), String>)
    requires
        a.wf(),
        a.phase is Done || a.phase is Failed,
    ensures
        (r is Ok) <==> a.phase is Done,
        r matches Err(m) ==> (a.error matches Some(e) && m@ == e@),
{
    match a.phase {
        AssemblyPhase::Done => Ok(()),
        _ => match &a.error {
            Some(e) => Err(e.clone()),
            None => vstd::pervasive::unreached(),
        },
    }
}

} // verus!
