use vstd::prelude::*;
use crate::config::Config;
use crate::text::same_text;

verus! {

/// What the tool does next once the matching rows are counted.
#[derive(Clone, Copy, Debug, PartialEq, Eq, Structural)]
pub enum Step {
    /// Ask the user to confirm the replacement.
    Confirm,
    /// Run the update.
    Update,
    /// Stop without touching the database.
    Abort,
}

/// What `str::trim` gives for a text.
pub uninterp spec fn trimmed_of(s: Seq<char>) -> Seq<char>;

/// What `str::to_lowercase` gives for a text.
pub uninterp spec fn lower_of(s: Seq<char>) -> Seq<char>;

/// Relies on str::trim: the text without leading and trailing whitespace,
/// which depends on the characters alone.
#[verifier::external_body]
fn trim_text<'a>(s: &'a str) -> (r: &'a str)
    ensures
        r@ == trimmed_of(s@),
{
    s.trim()
}

/// Relies on str::to_lowercase: the lowercase mapping of each character,
/// which depends on the characters alone.
#[verifier::external_body]
fn lowercase(s: &str) -> (r: String)
    ensures
        r@ == lower_of(s@),
{
    s.to_lowercase()
}

/// Whether an answer, already trimmed and lowercased, is the word "yes".
pub fn is_yes(folded: &str) -> (r: bool)
    ensures
        r == (folded@ == "yes"@),
{
    same_text(folded, "yes")
}

/// The step that follows the user's answer to the confirmation prompt: the
/// update runs only if the trimmed, lowercased answer is "yes".
pub fn answer_step(answer: &str) -> (r: Step)
    ensures
        r == (if lower_of(trimmed_of(answer@)) == "yes"@ {
            Step::Update
        } else {
            Step::Abort
        }),
{
    let folded = lowercase(trim_text(answer));
    if is_yes(folded.as_str()) {
        Step::Update
    } else {
        Step::Abort
    }
}

impl Config {
    /// The step that follows the count: a confirmation when one is required,
    /// else the update.
    pub fn first_step(&self) -> (r: Step)
        ensures
            r == (if self.prompt {
                Step::Confirm
            } else {
                Step::Update
            }),
    {
        if self.prompt {
            Step::Confirm
        } else {
            Step::Update
        }
    }
}

} // verus!
