//! The fixed instruction templates behind the structured endpoints. The
//! question template embeds the requested count verbatim: a count of zero
//! is written as the digit zero, never clamped.

use vstd::prelude::*;

use crate::strings::{decimal_digits, usize_to_string};

verus! {

/// The instruction sent to the model when questions are requested: the
/// template with the count and the content spliced in.
pub open spec fn spec_questions_prompt(content: Seq<char>, count: nat) -> Seq<char> {
    "Based on the following content, generate "@ + decimal_digits(count)
        + " thoughtful questions that would help someone understand the material better. Return the response as a JSON object with a 'questions' field containing an array of strings.\n\nContent: "@
        + content + "\n\nQuestions:"@
}

/// The instruction sent to the model when flashcards are requested: the
/// template with the title and the content spliced in. An absent title
/// reads as the phrase "this content".
pub open spec fn spec_flashcards_prompt(content: Seq<char>, title: Option<Seq<char>>) -> Seq<
    char,
> {
    "Create flashcards for studying "@ + (match title {
        Some(t) => t,
        None => "this content"@,
    })
        + ". Each flashcard should have a question on the front and the answer on the back. Return the response as a JSON object with a 'filename' field containing a suggested filename (without extension) and a 'flashcards' field containing an array of objects, each with 'front' and 'back' fields.\n\nContent: "@
        + content + "\n\nFlashcards:"@
}

/// Builds the question-generation instruction for the given content and
/// count.
pub fn questions_prompt(content: &str, count: usize) -> (r: String)
    ensures
        r@ == spec_questions_prompt(content@, count as nat),
{
    let mut p = "Based on the following content, generate ".to_owned();
    let digits = usize_to_string(count);
    p.append(digits.as_str());
    p.append(
        " thoughtful questions that would help someone understand the material better. Return the response as a JSON object with a 'questions' field containing an array of strings.\n\nContent: ",
    );
    p.append(content);
    p.append("\n\nQuestions:");
    p
}

/// Builds the flashcard-authoring instruction for the given content and
/// optional title.
pub fn flashcards_prompt(content: &str, title: Option<&str>) -> (r: String)
    ensures
        r@ == spec_flashcards_prompt(content@, title.deep_view()),
{
    let mut p = "Create flashcards for studying ".to_owned();
    match title {
        Some(t) => p.append(t),
        None => p.append("this content"),
    }
    p.append(
        ". Each flashcard should have a question on the front and the answer on the back. Return the response as a JSON object with a 'filename' field containing a suggested filename (without extension) and a 'flashcards' field containing an array of objects, each with 'front' and 'back' fields.\n\nContent: ",
    );
    p.append(content);
    p.append("\n\nFlashcards:");
    p
}

} // verus!
