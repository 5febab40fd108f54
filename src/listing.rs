use vstd::prelude::*;

use crate::model::Answer;
use crate::text::{decimal, int_text, views};

verus! {

/// The heading line of one answer.
pub open spec fn answer_heading(a: Answer) -> Seq<char> {
    "Answer ID: "@ + decimal(a.id as int) + ", Username: "@ + a.user.username@ + ", Upvotes: "@
        + decimal(a.upvote_count as int) + ", Downvotes: "@ + decimal(a.downvote_count as int)
}

/// The line printed after each answer.
pub open spec fn separator() -> Seq<char> {
    "------"@
}

/// The lines printed for a list of answers: for each, in order, its heading,
/// its content and a separator.
pub open spec fn answers_text(answers: Seq<Answer>) -> Seq<Seq<char>>
    decreases answers.len(),
{
    if answers.len() == 0 {
        Seq::empty()
    } else {
        let last = answers.last();
        answers_text(answers.drop_last()) + seq![answer_heading(last), last.content@, separator()]
    }
}

fn heading(a: &Answer) -> (r: String)
    ensures
        r@ == answer_heading(*a),
{
    let mut s = String::from_str("Answer ID: ");
    let id = int_text(a.id);
    s.append(id.as_str());
    s.append(", Username: ");
    s.append(a.user.username.as_str());
    s.append(", Upvotes: ");
    let up = int_text(a.upvote_count);
    s.append(up.as_str());
    s.append(", Downvotes: ");
    let down = int_text(a.downvote_count);
    s.append(down.as_str());
    s
}

/// The lines that show a list of answers.
pub fn answer_lines(answers: &Vec<Answer>) -> (r: Vec<String>)
    ensures
        views(r@) == answers_text(answers@),
        r@.len() == 3 * answers@.len(),
{
    let mut lines: Vec<String> = Vec::new();
    let mut i: usize = 0;
    while i < answers.len()
        invariant
            i <= answers@.len(),
            views(lines@) == answers_text(answers@.subrange(0, i as int)),
        decreases answers@.len() - i,
    {
        let a = &answers[i];
        lines.push(heading(a));
        lines.push(String::from_str(a.content.as_str()));
        lines.push(String::from_str("------"));
        proof {
            let prefix = answers@.subrange(0, i as int + 1);
            assert(prefix.drop_last() =~= answers@.subrange(0, i as int));
            assert(views(lines@) =~= answers_text(prefix));
        }
        i = i + 1;
    }
    assert(answers@.subrange(0, answers@.len() as int) =~= answers@);
    proof {
        lemma_answers_text_len(answers@);
    }
    assert(views(lines@).len() == lines@.len());
    lines
}

proof fn lemma_answers_text_len(answers: Seq<Answer>)
    ensures
        answers_text(answers).len() == 3 * answers.len(),
    decreases answers.len(),
{
    if answers.len() > 0 {
        lemma_answers_text_len(answers.drop_last());
    }
}

} // verus!
