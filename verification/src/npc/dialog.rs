//! Dialogs with the characters of the world: lines, answers and what an
//! answer does.
use vstd::prelude::*;
use crate::text::owned;

verus! {

/// A dialog: the lines a character says, in order.
pub struct Dialog {
    pub lines: Vec<DialogLine>,
}

/// A line of a dialog and the answers the player may give to it.
pub struct DialogLine {
    pub choices: Vec<DialogChoice>,
    pub message: String,
}

/// An answer to a line.
pub struct DialogChoice {
    pub message: String,
    pub action: DialogChoiceAction,
}

/// What giving an answer does.
pub enum DialogChoiceAction {
    /// Goes on to the next line.
    NextLine,
    /// Ends the dialog with a last message.
    EndDialog(String),
    /// Goes to the line at this position.
    GotoLine(usize),
    /// Opens the shop of this name.
    OpenShop(String),
}

/// An action seen with its texts as character sequences.
pub enum ActionView {
    NextLine,
    EndDialog(Seq<char>),
    GotoLine(usize),
    OpenShop(Seq<char>),
}

/// The view of an action.
pub open spec fn action_view(a: DialogChoiceAction) -> ActionView {
    match a {
        DialogChoiceAction::NextLine => ActionView::NextLine,
        DialogChoiceAction::EndDialog(m) => ActionView::EndDialog(m@),
        DialogChoiceAction::GotoLine(i) => ActionView::GotoLine(i),
        DialogChoiceAction::OpenShop(s) => ActionView::OpenShop(s@),
    }
}

impl Default for DialogChoiceAction {
    /// An answer goes on to the next line unless it says otherwise.
    fn default() -> (a: DialogChoiceAction)
        ensures
            a is NextLine,
    {
        DialogChoiceAction::NextLine
    }
}

impl DialogChoiceAction {
    /// A copy of the action.
    pub fn duplicate(&self) -> (a: DialogChoiceAction)
        ensures
            action_view(a) == action_view(*self),
    {
        match self {
            DialogChoiceAction::NextLine => DialogChoiceAction::NextLine,
            DialogChoiceAction::EndDialog(m) => DialogChoiceAction::EndDialog(m.clone()),
            DialogChoiceAction::GotoLine(i) => DialogChoiceAction::GotoLine(*i),
            DialogChoiceAction::OpenShop(s) => DialogChoiceAction::OpenShop(s.clone()),
        }
    }
}

/// The dialog under way: who speaks, what, and at which line. A negative
/// line means the dialog was ended by an answer and closes at the next step.
pub struct DialogResource {
    pub orator_name: String,
    pub dialog: Dialog,
    pub line_index: isize,
}

/// The dialog under way, if any.
pub struct CurrentDialog(pub Option<DialogResource>);

impl Default for CurrentDialog {
    /// No dialog.
    fn default() -> (c: CurrentDialog)
        ensures
            c.0 is None,
    {
        CurrentDialog(None)
    }
}

/// Where a dialog stands after a step from line `line_index` of a dialog
/// of `len` lines: closed (`None`) when it was ended by an answer or had
/// gone past its lines, else at the following line.
pub open spec fn next_line_index(line_index: isize, len: nat) -> Option<int> {
    step_index(line_index as int, len)
}

/// Where a dialog of `len` lines at line `line_index` stands after one step
/// (see `next_line_index`).
pub open spec fn step_index(line_index: int, len: nat) -> Option<int> {
    if line_index < 0 {
        None
    } else if line_index < len {
        Some(line_index + 1)
    } else {
        None
    }
}

/// Where a dialog of `len` lines at line `line_index` stands after `steps`
/// steps, `None` once it has closed.
pub open spec fn dialog_after(line_index: int, len: nat, steps: nat) -> Option<int>
    decreases steps,
{
    if steps == 0 {
        Some(line_index)
    } else {
        match dialog_after(line_index, len, (steps - 1) as nat) {
            Some(j) => step_index(j, len),
            None => None,
        }
    }
}

/// How many steps a dialog of `len` lines at line `line_index` takes to
/// close: one past each line left when it stands on one of its lines or
/// just past them, else one.
pub open spec fn steps_to_close(line_index: int, len: nat) -> nat {
    if 0 <= line_index <= len {
        (len - line_index + 1) as nat
    } else {
        1
    }
}

/// Stepping a dialog moves it one line on at each step and closes it after
/// exactly `steps_to_close` steps.
pub proof fn lemma_dialog_closes(line_index: int, len: nat)
    ensures
        forall|k: nat|
            k < steps_to_close(line_index, len) ==> #[trigger] dialog_after(line_index, len, k)
                == Some(line_index + k),
        dialog_after(line_index, len, steps_to_close(line_index, len)) is None,
{
    assert forall|k: nat| k < steps_to_close(line_index, len) implies #[trigger] dialog_after(
        line_index,
        len,
        k,
    ) == Some(line_index + k) by {
        lemma_dialog_walks(line_index, len, k);
    }
    let n = steps_to_close(line_index, len);
    lemma_dialog_walks(line_index, len, (n - 1) as nat);
}

proof fn lemma_dialog_walks(line_index: int, len: nat, k: nat)
    requires
        k < steps_to_close(line_index, len),
    ensures
        dialog_after(line_index, len, k) == Some(line_index + k),
    decreases k,
{
    if k > 0 {
        lemma_dialog_walks(line_index, len, (k - 1) as nat);
    }
}

/// Moves the dialog under way one step on (see `next_line_index`). A
/// dialog must be under way.
pub fn next_line(current_dialog_res: &mut CurrentDialog)
    requires
        old(current_dialog_res).0 is Some,
        old(current_dialog_res).0->0.dialog.lines@.len() <= isize::MAX,
    ensures
        ({
            let d = old(current_dialog_res).0->0;
            match next_line_index(d.line_index, d.dialog.lines@.len()) {
                None => final(current_dialog_res).0 is None,
                Some(n) => final(current_dialog_res).0 matches Some(f) && f.line_index == n
                    && f.orator_name == d.orator_name && f.dialog == d.dialog,
            }
        }),
{
    let mut res = current_dialog_res.0.take();
    match res {
        Some(mut current_dialog) => {
            if current_dialog.line_index < 0 {
                current_dialog_res.0 = None;
                return;
            }
            if (current_dialog.line_index as usize) < current_dialog.dialog.lines.len() {
                current_dialog.line_index = current_dialog.line_index + 1;
                current_dialog_res.0 = Some(current_dialog);
            } else {
                current_dialog_res.0 = None;
            }
        },
        None => {},
    }
}

/// Whether a dialog is under way.
pub fn in_dialog(current_dialog: &CurrentDialog) -> (r: bool)
    ensures
        r == current_dialog.0 is Some,
{
    current_dialog.0.is_some()
}

/// The line the dialog is at, if that is one of its lines.
pub open spec fn current_line_index(d: DialogResource) -> Option<int> {
    if 0 <= d.line_index < d.dialog.lines@.len() {
        Some(d.line_index as int)
    } else {
        None
    }
}

impl DialogResource {
    /// The line the dialog is at, if that is one of its lines.
    pub fn current_line(&self) -> (l: Option<&DialogLine>)
        ensures
            current_line_index(*self) matches Some(i) ==> l matches Some(x) && *x == self.dialog.lines@[i],
            current_line_index(*self) is None ==> l is None,
    {
        if self.line_index >= 0 && (self.line_index as usize) < self.dialog.lines.len() {
            Some(&self.dialog.lines[self.line_index as usize])
        } else {
            None
        }
    }

    /// Whether the line the dialog is at offers answers.
    pub fn line_has_choices(&self) -> (r: bool)
        ensures
            r == (current_line_index(*self) matches Some(i) && self.dialog.lines@[i].choices@.len()
                > 0),
    {
        match self.current_line() {
            Some(line) => line.choices.len() > 0,
            None => false,
        }
    }
}

/// What giving an answer led to.
pub enum ChoiceOutcome {
    /// The dialog ends: this last message is shown and the next step closes it.
    EndMessage(String),
    /// The shop of this name opens and the dialog moved one step on.
    OpenShop(String),
    /// The dialog went to another line.
    Jumped,
    /// The dialog moved one step on.
    Advanced,
}

/// Gives the answer whose action is `action` to the dialog under way.
pub fn apply_choice(current_dialog_res: &mut CurrentDialog, action: &DialogChoiceAction) -> (outcome: ChoiceOutcome)
    requires
        old(current_dialog_res).0 is Some,
        old(current_dialog_res).0->0.dialog.lines@.len() <= isize::MAX,
    ensures
        ({
            let d = old(current_dialog_res).0->0;
            let step = next_line_index(d.line_index, d.dialog.lines@.len());
            let stepped = match step {
                None => final(current_dialog_res).0 is None,
                Some(n) => final(current_dialog_res).0 matches Some(f) && f.line_index == n
                    && f.orator_name == d.orator_name && f.dialog == d.dialog,
            };
            match *action {
                DialogChoiceAction::EndDialog(m) => final(current_dialog_res).0 matches Some(f)
                    && f.line_index == -1 && f.orator_name == d.orator_name && f.dialog == d.dialog
                    && (outcome matches ChoiceOutcome::EndMessage(t) && t@ == m@),
                DialogChoiceAction::OpenShop(s) => stepped && (outcome matches ChoiceOutcome::OpenShop(
                    t,
                ) && t@ == s@),
                DialogChoiceAction::GotoLine(i) => final(current_dialog_res).0 matches Some(f)
                    && f.line_index == i as isize && f.orator_name == d.orator_name && f.dialog
                    == d.dialog && outcome is Jumped,
                DialogChoiceAction::NextLine => stepped && outcome is Advanced,
            }
        }),
{
    match action {
        DialogChoiceAction::EndDialog(message) => {
            let res = current_dialog_res.0.take();
            match res {
                Some(mut d) => {
                    d.line_index = -1;
                    current_dialog_res.0 = Some(d);
                },
                None => {},
            }
            ChoiceOutcome::EndMessage(message.clone())
        },
        DialogChoiceAction::OpenShop(shop_name) => {
            next_line(current_dialog_res);
            ChoiceOutcome::OpenShop(shop_name.clone())
        },
        DialogChoiceAction::GotoLine(index) => {
            let res = current_dialog_res.0.take();
            match res {
                Some(mut d) => {
                    d.line_index = *index as isize;
                    current_dialog_res.0 = Some(d);
                },
                None => {},
            }
            ChoiceOutcome::Jumped
        },
        DialogChoiceAction::NextLine => {
            next_line(current_dialog_res);
            ChoiceOutcome::Advanced
        },
    }
}

} // verus!
