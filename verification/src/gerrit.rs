//! The review connector: what it asks the review server, and what it makes
//! of the answer.

use crate::template::{render, rendered, variables_view};
use crate::text::{chars_of, integer_string, integer_text, matches_at, same_text, string_of};
use vstd::prelude::*;
use vstd::slice::slice_subrange;
use vstd::string::StringExecFns;

verus! {

/// What the server puts before the JSON of every answer.
pub const RESPONSE_PREFIX: &'static str = ")]}'";

/// What the server answers to a request that it does not authorize.
pub const UNAUTHORIZED: &'static str = "Unauthorized";

/// The path of the changes.
pub const CHANGES_PATH: &'static str = "a/changes";

/// Why an answer holds no reviews.
#[derive(Debug)]
pub enum AnswerError {
    /// The server refused the name or the password.
    Unauthorized,
    /// The answer does not start with the prefix.
    MissingPrefix,
}

/// The query for the open changes of a project: the configured query, and
/// the project after ` project:`.
pub open spec fn changes_query_spec(query: Seq<char>, project: Seq<char>) -> Seq<char> {
    query + " project:"@ + project
}

/// The query for the open changes of a project.
pub fn changes_query(query: &str, project: &str) -> (q: String)
    ensures
        q@ == changes_query_spec(query@, project@),
{
    let mut q = query.to_owned();
    q.append(" project:");
    q.append(project);
    q
}

/// The JSON of an answer: what follows the prefix. An answer that is the
/// word `Unauthorized` is told apart first.
pub open spec fn answer_json_spec(answer: Seq<char>) -> Result<Seq<char>, AnswerError> {
    if answer == UNAUTHORIZED@ {
        Err(AnswerError::Unauthorized)
    } else if answer.len() >= RESPONSE_PREFIX@.len() && answer.subrange(
        0,
        RESPONSE_PREFIX@.len() as int,
    ) == RESPONSE_PREFIX@ {
        Ok(answer.subrange(RESPONSE_PREFIX@.len() as int, answer.len() as int))
    } else {
        Err(AnswerError::MissingPrefix)
    }
}

/// Takes the JSON out of an answer of the server.
pub fn answer_json(answer: &str) -> (r: Result<String, AnswerError>)
    ensures
        match r {
            Ok(json) => answer_json_spec(answer@) == Ok::<Seq<char>, AnswerError>(json@),
            Err(e) => answer_json_spec(answer@) == Err::<Seq<char>, AnswerError>(e),
        },
{
    if same_text(answer, UNAUTHORIZED) {
        return Err(AnswerError::Unauthorized);
    }
    let chars = chars_of(answer);
    let prefix = chars_of(RESPONSE_PREFIX);
    if matches_at(chars.as_slice(), prefix.as_slice(), 0) {
        Ok(string_of(slice_subrange(chars.as_slice(), prefix.len(), chars.len())))
    } else {
        Err(AnswerError::MissingPrefix)
    }
}

/// What a review message is made of.
#[derive(Debug)]
pub struct Review {
    pub subject: String,
    pub insertions: i32,
    pub deletions: i32,
    pub number: i32,
}

/// The variables that the template of a review can name, each with its
/// value: subject, insertions, deletions, url, number and project.
pub open spec fn review_variables_spec(
    subject: Seq<char>,
    insertions: i32,
    deletions: i32,
    number: i32,
    endpoint: Seq<char>,
    project: Seq<char>,
) -> Seq<(Seq<char>, Seq<char>)> {
    seq![
        ("subject"@, subject),
        ("insertions"@, integer_text(insertions as int)),
        ("deletions"@, integer_text(deletions as int)),
        ("url"@, endpoint),
        ("number"@, integer_text(number as int)),
        ("project"@, project),
    ]
}

/// The variables that the template of a review can name.
pub fn review_variables(review: &Review, endpoint: &str, project: &str) -> (variables: Vec<
    (String, String),
>)
    ensures
        variables_view(variables@) == review_variables_spec(
            review.subject@,
            review.insertions,
            review.deletions,
            review.number,
            endpoint@,
            project@,
        ),
{
    let mut variables: Vec<(String, String)> = Vec::new();
    variables.push(("subject".to_owned(), review.subject.clone()));
    variables.push(("insertions".to_owned(), integer_string(review.insertions as i64)));
    variables.push(("deletions".to_owned(), integer_string(review.deletions as i64)));
    variables.push(("url".to_owned(), endpoint.to_owned()));
    variables.push(("number".to_owned(), integer_string(review.number as i64)));
    variables.push(("project".to_owned(), project.to_owned()));
    variables
}

/// A `Review` as a mathematical value.
pub struct ReviewView {
    pub subject: Seq<char>,
    pub insertions: i32,
    pub deletions: i32,
    pub number: i32,
}

impl View for Review {
    type V = ReviewView;

    open spec fn view(&self) -> ReviewView {
        ReviewView {
            subject: self.subject@,
            insertions: self.insertions,
            deletions: self.deletions,
            number: self.number,
        }
    }
}

/// The reviews as mathematical values.
pub open spec fn reviews_view(reviews: Seq<Review>) -> Seq<ReviewView> {
    reviews.map_values(|r: Review| r@)
}

/// The variable that the template of the heading can name: project.
pub open spec fn heading_variables_spec(project: Seq<char>) -> Seq<(Seq<char>, Seq<char>)> {
    seq![("project"@, project)]
}

/// The messages of the reviews one after the other, each the template of a
/// review filled with the variables of the review; the first failure where a
/// template cannot be filled.
pub open spec fn review_lines_spec(
    review_template: Seq<char>,
    endpoint: Seq<char>,
    project: Seq<char>,
    reviews: Seq<ReviewView>,
) -> Result<Seq<char>, Seq<char>>
    decreases reviews.len(),
{
    if reviews.len() == 0 {
        Ok(Seq::empty())
    } else {
        match review_lines_spec(review_template, endpoint, project, reviews.drop_last()) {
            Err(why) => Err(why),
            Ok(before) => {
                let review = reviews.last();
                match rendered(
                    review_template,
                    review_variables_spec(
                        review.subject,
                        review.insertions,
                        review.deletions,
                        review.number,
                        endpoint,
                        project,
                    ),
                ) {
                    Ok(line) => Ok(before + line),
                    Err(why) => Err(why),
                }
            },
        }
    }
}

/// The message about the reviews of a project: none where there is no
/// review; else the heading, which is its template filled with the project,
/// and after it the message of each review in the order of the answer. The
/// heading is filled first.
pub open spec fn reviews_message_spec(
    template: Seq<char>,
    review_template: Seq<char>,
    endpoint: Seq<char>,
    project: Seq<char>,
    reviews: Seq<ReviewView>,
) -> Result<Option<Seq<char>>, Seq<char>> {
    if reviews.len() == 0 {
        Ok(None)
    } else {
        match rendered(template, heading_variables_spec(project)) {
            Err(why) => Err(why),
            Ok(heading) => match review_lines_spec(review_template, endpoint, project, reviews) {
                Err(why) => Err(why),
                Ok(lines) => Ok(Some(heading + lines)),
            },
        }
    }
}

/// Where the first reviews fail, all of them fail in the same way.
pub proof fn lemma_review_lines_failure_stays(
    review_template: Seq<char>,
    endpoint: Seq<char>,
    project: Seq<char>,
    reviews: Seq<ReviewView>,
    n: int,
)
    requires
        0 <= n <= reviews.len(),
        review_lines_spec(review_template, endpoint, project, reviews.take(n)) is Err,
    ensures
        review_lines_spec(review_template, endpoint, project, reviews) == review_lines_spec(
            review_template,
            endpoint,
            project,
            reviews.take(n),
        ),
    decreases reviews.len() - n,
{
    if n < reviews.len() {
        assert(reviews.take(n + 1).drop_last() =~= reviews.take(n));
        lemma_review_lines_failure_stays(review_template, endpoint, project, reviews, n + 1);
    } else {
        assert(reviews.take(n) =~= reviews);
    }
}

/// A message that may be absent, or a failure, as a mathematical value.
pub open spec fn message_view(r: Result<Option<String>, String>) -> Result<
    Option<Seq<char>>,
    Seq<char>,
> {
    match r {
        Ok(Some(message)) => Ok(Some(message@)),
        Ok(None) => Ok(None),
        Err(why) => Err(why@),
    }
}

/// Writes the message about the reviews of a project.
pub fn reviews_message(
    template: &str,
    review_template: &str,
    endpoint: &str,
    project: &str,
    reviews: &Vec<Review>,
) -> (r: Result<Option<String>, String>)
    ensures
        message_view(r) == reviews_message_spec(
            template@,
            review_template@,
            endpoint@,
            project@,
            reviews_view(reviews@),
        ),
{
    if reviews.len() == 0 {
        return Ok(None);
    }
    let ghost all = reviews_view(reviews@);
    let mut heading_variables: Vec<(String, String)> = Vec::new();
    heading_variables.push(("project".to_owned(), project.to_owned()));
    assert(variables_view(heading_variables@) =~= heading_variables_spec(project@));
    let mut message = match render(template, &heading_variables) {
        Ok(heading) => heading,
        Err(why) => {
            return Err(why);
        },
    };
    let ghost heading = message@;
    let mut i: usize = 0;
    while i < reviews.len()
        invariant
            i <= reviews@.len(),
            reviews@.len() > 0,
            all == reviews_view(reviews@),
            rendered(template@, heading_variables_spec(project@)) == Ok::<Seq<char>, Seq<char>>(
                heading,
            ),
            review_lines_spec(review_template@, endpoint@, project@, all.take(i as int)) is Ok,
            message@ == heading + review_lines_spec(
                review_template@,
                endpoint@,
                project@,
                all.take(i as int),
            )->Ok_0,
        decreases reviews.len() - i,
    {
        proof {
            assert(all.take(i + 1).drop_last() =~= all.take(i as int));
        }
        let variables = review_variables(&reviews[i], endpoint, project);
        match render(review_template, &variables) {
            Ok(line) => {
                message.append(line.as_str());
            },
            Err(why) => {
                proof {
                    lemma_review_lines_failure_stays(
                        review_template@,
                        endpoint@,
                        project@,
                        all,
                        i + 1,
                    );
                }
                return Err(why);
            },
        }
        i += 1;
    }
    proof {
        assert(all.take(i as int) =~= all);
    }
    Ok(Some(message))
}

} // verus!
