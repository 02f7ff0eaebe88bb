//! Fixed Markdown texts for the events that have a formatter of their own.

use vstd::prelude::*;
use vstd::string::*;

use crate::text::{decimal, decimal_string, first_line, first_line_of, join, join_strings, prefix, prefix_of, views};
use crate::webhook::types::{
    Commit, IssueCommentCreatedEvent, Issue, IssuesClosedEvent, IssuesOpenedEvent,
    IssuesReopenedEvent, PushEvent, Repository,
};

verus! {

/// How many characters of a commit's identifier a notification shows.
pub const SHORT_HASH_LENGTH: usize = 7;

/// The identifier of a commit cut to its first seven characters.
pub open spec fn short_hash(commit: Commit) -> Seq<char> {
    prefix(commit.id@, SHORT_HASH_LENGTH as nat)
}

/// The address of a commit's author, or the placeholder where there is none.
pub open spec fn author_email(commit: Commit) -> Seq<char> {
    match commit.author.email {
        Some(email) => email@,
        None => "<no email>"@,
    }
}

/// The entry of one commit in a push notification: its short hash as a link,
/// its author, and the first line of its message.
pub open spec fn commit_entry(commit: Commit) -> Seq<char> {
    "- **Commit**: ["@ + short_hash(commit) + "]("@ + commit.url@ + ")\n  **Author**: "@
        + commit.author.name@ + " <"@ + author_email(commit) + ">\n  **Message**: "@ + first_line(
        commit.message@,
    ) + "\n"@
}

/// The entries of a list of commits, in the order of the commits.
pub open spec fn commit_entries(commits: Seq<Commit>) -> Seq<Seq<char>> {
    commits.map_values(|commit: Commit| commit_entry(commit))
}

/// The text of a push notification: a heading that links the repository, then
/// the commit entries with one line feed between neighbours.
pub open spec fn push_text(event: PushEvent) -> Seq<char> {
    "New commits pushed to ["@ + event.repository.name@ + "]("@ + event.repository.html_url@
        + ")\n\n"@ + join(commit_entries(event.commits@), "\n"@)
}

/// The text of the commit digest: a heading that names the repository in bold,
/// then the commit entries with one line feed between neighbours.
pub open spec fn commit_digest_text(event: PushEvent) -> Seq<char> {
    "New commits pushed to repository **"@ + event.repository.name@ + "**:\n\n"@ + join(
        commit_entries(event.commits@),
        "\n"@,
    )
}

/// The text of a notification about an issue: who wrote the issue, what was
/// done, the issue's number as a link, the repository as a link, and the title.
pub open spec fn issue_text(verb: Seq<char>, issue: Issue, repository: Repository) -> Seq<char> {
    "["@ + issue.user.login@ + "]("@ + issue.user.html_url@ + ") "@ + verb + " [issue #"@ + decimal(
        issue.number as nat,
    ) + "]("@ + issue.html_url@ + ") in ["@ + repository.name@ + "]("@ + repository.html_url@
        + ")\n\n**Title**: "@ + issue.title@ + "\n        "@
}

/// A push notification holds one entry for each commit, in the order of the
/// commits, and each entry shows the first seven characters of its commit's
/// identifier (the whole identifier where it is shorter) right behind the
/// entry's opening words.
pub proof fn lemma_push_entries(event: PushEvent)
    ensures
        commit_entries(event.commits@).len() == event.commits@.len(),
        push_text(event) == "New commits pushed to ["@ + event.repository.name@ + "]("@
            + event.repository.html_url@ + ")\n\n"@ + join(
            commit_entries(event.commits@),
            "\n"@,
        ),
        forall|i: int|
            0 <= i < event.commits@.len() ==> {
                let commit = #[trigger] event.commits@[i];
                &&& commit_entries(event.commits@)[i] == commit_entry(commit)
                &&& ("- **Commit**: ["@ + short_hash(commit)).is_prefix_of(commit_entry(commit))
                &&& short_hash(commit).is_prefix_of(commit.id@)
                &&& commit.id@.len() >= 7 ==> short_hash(commit).len() == 7
                &&& commit.id@.len() < 7 ==> short_hash(commit) == commit.id@
            },
{
    assert forall|i: int| 0 <= i < event.commits@.len() implies {
        let commit = #[trigger] event.commits@[i];
        &&& commit_entries(event.commits@)[i] == commit_entry(commit)
        &&& ("- **Commit**: ["@ + short_hash(commit)).is_prefix_of(commit_entry(commit))
        &&& short_hash(commit).is_prefix_of(commit.id@)
        &&& commit.id@.len() >= 7 ==> short_hash(commit).len() == 7
        &&& commit.id@.len() < 7 ==> short_hash(commit) == commit.id@
    } by {
        let commit = event.commits@[i];
        let opening = "- **Commit**: ["@ + short_hash(commit);
        let entry = commit_entry(commit);
        assert(entry.subrange(0, opening.len() as int) =~= opening);
    }
}

fn format_commit(commit: &Commit) -> (entry: String)
    ensures
        entry@ == commit_entry(*commit),
{
    let mut entry = "- **Commit**: [".to_owned();
    entry.append(prefix_of(commit.id.as_str(), SHORT_HASH_LENGTH));
    entry.append("](");
    entry.append(commit.url.as_str());
    entry.append(")\n  **Author**: ");
    entry.append(commit.author.name.as_str());
    entry.append(" <");
    match &commit.author.email {
        Some(email) => entry.append(email.as_str()),
        None => entry.append("<no email>"),
    }
    entry.append(">\n  **Message**: ");
    entry.append(first_line_of(commit.message.as_str()));
    entry.append("\n");
    entry
}

fn format_commits(commits: &Vec<Commit>) -> (text: String)
    ensures
        text@ == join(commit_entries(commits@), "\n"@),
{
    let mut entries: Vec<String> = Vec::new();
    let mut index: usize = 0;
    while index < commits.len()
        invariant
            index <= commits.len(),
            entries.len() == index,
            forall|i: int| 0 <= i < index ==> entries@[i]@ == commit_entry(commits@[i]),
        decreases commits.len() - index,
    {
        entries.push(format_commit(&commits[index]));
        index = index + 1;
    }
    assert(views(entries@) =~= commit_entries(commits@));
    join_strings(&entries, "\n")
}

pub fn format_push_event(event: &PushEvent) -> (text: String)
    ensures
        text@ == push_text(*event),
{
    let mut text = "New commits pushed to [".to_owned();
    text.append(event.repository.name.as_str());
    text.append("](");
    text.append(event.repository.html_url.as_str());
    text.append(")\n\n");
    text.append(format_commits(&event.commits).as_str());
    text
}

/// The digest that the commit hook sends for a push.
pub fn format_commit_digest(event: &PushEvent) -> (text: String)
    ensures
        text@ == commit_digest_text(*event),
{
    let mut text = "New commits pushed to repository **".to_owned();
    text.append(event.repository.name.as_str());
    text.append("**:\n\n");
    text.append(format_commits(&event.commits).as_str());
    text
}

fn format_issue(verb: &str, issue: &Issue, repository: &Repository) -> (text: String)
    ensures
        text@ == issue_text(verb@, *issue, *repository),
{
    let mut text = "[".to_owned();
    text.append(issue.user.login.as_str());
    text.append("](");
    text.append(issue.user.html_url.as_str());
    text.append(") ");
    text.append(verb);
    text.append(" [issue #");
    text.append(decimal_string(issue.number as u64).as_str());
    text.append("](");
    text.append(issue.html_url.as_str());
    text.append(") in [");
    text.append(repository.name.as_str());
    text.append("](");
    text.append(repository.html_url.as_str());
    text.append(")\n\n**Title**: ");
    text.append(issue.title.as_str());
    text.append("\n        ");
    text
}

pub fn format_issue_opened(event: &IssuesOpenedEvent) -> (text: String)
    ensures
        text@ == issue_text("has opened"@, event.issue.issue, event.repository),
{
    format_issue("has opened", &event.issue.issue, &event.repository)
}

pub fn format_issue_closed(event: &IssuesClosedEvent) -> (text: String)
    ensures
        text@ == issue_text("has closed"@, event.issue.issue, event.repository),
{
    format_issue("has closed", &event.issue.issue, &event.repository)
}

pub fn format_issue_reopened(event: &IssuesReopenedEvent) -> (text: String)
    ensures
        text@ == issue_text("has reopened"@, event.issue, event.repository),
{
    format_issue("has reopened", &event.issue, &event.repository)
}

pub fn format_issue_comment_created(event: &IssueCommentCreatedEvent) -> (text: String)
    ensures
        text@ == issue_text("commented on"@, event.issue.issue, event.repository),
{
    format_issue("commented on", &event.issue.issue, &event.repository)
}

} // verus!
