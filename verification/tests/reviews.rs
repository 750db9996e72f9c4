use branch_review::branch::{Branch, CommitId};
use branch_review::error::Error;
use branch_review::review::{Event, Request, Review};
use branch_review::time::CommitTime;
use std::collections::BTreeMap;

const LEGEND: &str = "k - Keep the branch\r\n\
d - Delete the branch\r\n\
u - Undo last deleted branch\r\n\
q - Quit\r\n\
? - Show this help text\r\n";

fn id(tag: u8) -> CommitId {
    CommitId { bytes: [tag; 20] }
}

fn branch(name: &str, tag: u8, seconds: i64) -> Branch {
    Branch {
        time: CommitTime::from_git(seconds, 0).unwrap(),
        id: id(tag),
        name: String::from(name),
        is_head: false,
    }
}

fn current(name: &str, tag: u8, seconds: i64) -> Branch {
    Branch { is_head: true, ..branch(name, tag, seconds) }
}

fn prompt(name: &str, tag: u8, seconds: i64) -> String {
    let digit = format!("{:02x}", tag);
    let short = &digit.repeat(4)[..7];
    format!(
        "'{}' ({}) last commit at 1970-01-01 00:00:{:02} (k/d/q/u/?) > ",
        name, short, seconds
    )
}

fn repository(queue: &[Branch]) -> BTreeMap<String, CommitId> {
    queue.iter().map(|b| (b.name.clone(), b.id)).collect()
}

struct Session {
    output: String,
    outcome: Option<Result<(), Error>>,
    keys_read: usize,
    repository: BTreeMap<String, CommitId>,
}

// Drives a review over an in-memory repository that fails as a real one
// would: deleting a branch that is absent, creating one that is present.
fn play(queue: Vec<Branch>, mut repository: BTreeMap<String, CommitId>, keys: &str) -> Session {
    let mut keys_left = keys.bytes();
    let mut keys_read = 0;
    let (mut review, mut output) = Review::begin(queue);
    loop {
        let event = match review.pending() {
            Request::ReadKey => match keys_left.next() {
                Some(key) => {
                    keys_read += 1;
                    Event::Key(Some(key))
                }
                None => return Session { output, outcome: None, keys_read, repository },
            },
            Request::DeleteBranch { name } => match repository.remove(name) {
                Some(_) => Event::Done,
                None => Event::Failed(format!("cannot locate local branch '{}'", name)),
            },
            Request::CreateBranch { name, id } => {
                if repository.contains_key(name) {
                    Event::Failed(format!("a reference with that name already exists: {}", name))
                } else {
                    repository.insert(name.clone(), *id);
                    Event::Done
                }
            }
            Request::Finish(outcome) => {
                let outcome = match outcome {
                    Ok(()) => Ok(()),
                    Err(e) => Err(e.clone()),
                };
                return Session { output, outcome: Some(outcome), keys_read, repository };
            }
        };
        output.push_str(&review.act_on_branch(event));
    }
}

#[test]
fn empty_queue_says_no_branches_found() {
    let (review, output) = Review::begin(Vec::new());
    assert_eq!(output, "No branches found (master ignored).\r\n");
    assert_eq!(review.pending(), &Request::Finish(Ok(())));
    assert!(review.is_finished());
    let session = play(Vec::new(), BTreeMap::new(), "dq");
    assert_eq!(session.output, "No branches found (master ignored).\r\n");
    assert_eq!(session.outcome, Some(Ok(())));
    assert_eq!(session.keys_read, 0);
}

#[test]
fn first_branch_is_prompted_at_the_start() {
    let queue = vec![branch("a", 0xa1, 1), branch("b", 0xb2, 2)];
    let (review, output) = Review::begin(queue);
    assert_eq!(output, prompt("a", 0xa1, 1));
    assert_eq!(output, "'a' (a1a1a1a) last commit at 1970-01-01 00:00:01 (k/d/q/u/?) > ");
    assert_eq!(review.pending(), &Request::ReadKey);
    assert_eq!(review.index(), 0);
    assert_eq!(review.deleted_branch(), &None);
    assert_eq!(review.queue().len(), 2);
    assert!(!review.is_finished());
}

#[test]
fn unknown_key_on_first_prompt_is_fatal() {
    let queue = vec![branch("a", 1, 1), branch("b", 2, 2)];
    let repo = repository(&queue);
    let session = play(queue, repo.clone(), "xdd");
    assert_eq!(session.outcome, Some(Err(Error::InvalidInput('x'))));
    assert_eq!(session.output, format!("{}x\r\n", prompt("a", 1, 1)));
    assert_eq!(session.keys_read, 1);
    assert_eq!(session.repository, repo);
    assert_eq!(
        Error::InvalidInput('x').message(),
        "Invalid input, Dont know what to do with 'x'"
    );
}

#[test]
fn delete_undo_delete_over_two_branches() {
    let queue = vec![branch("A", 0xaa, 1), branch("B", 0xbb, 2)];
    let repo = repository(&queue);
    let session = play(queue, repo, "dudq");
    // `d` deletes A and moves on to B; `u` at B's prompt brings A back and
    // prompts for B again; the second `d` deletes B, which ends the queue
    // before `q` is read.
    assert_eq!(session.outcome, Some(Ok(())));
    assert_eq!(session.keys_read, 3);
    assert_eq!(session.repository.get("A"), Some(&id(0xaa)));
    assert_eq!(session.repository.get("B"), None);
    assert_eq!(
        session.output,
        format!(
            "{a}d\r\nDeleted branch 'A', to undo select 'u'\r\n\
             {b}u\r\nUndoing deletion of branch 'A'\r\n\
             {b}d\r\nDeleted branch 'B', to undo select 'u'\r\n",
            a = prompt("A", 0xaa, 1),
            b = prompt("B", 0xbb, 2)
        )
    );
}

#[test]
fn delete_undo_then_quit_leaves_everything() {
    let queue = vec![branch("A", 0xaa, 1), branch("B", 0xbb, 2)];
    let repo = repository(&queue);
    let session = play(queue, repo.clone(), "duq");
    assert_eq!(session.outcome, Some(Ok(())));
    assert_eq!(session.repository, repo);
    assert!(session.output.ends_with("q\r\nQuitting...\r\n"));
}

#[test]
fn checked_out_branch_is_skipped_at_the_front() {
    let queue = vec![current("main", 1, 1), branch("a", 2, 2)];
    let (review, output) = Review::begin(queue);
    assert_eq!(
        output,
        format!("Ignoring 'main' because it is the current branch\r\n{}", prompt("a", 2, 2))
    );
    assert_eq!(review.index(), 1);
    assert_eq!(review.pending(), &Request::ReadKey);
}

#[test]
fn checked_out_branch_is_skipped_in_the_middle_and_at_the_end() {
    let queue = vec![branch("a", 1, 1), current("main", 2, 2), branch("b", 3, 3)];
    let repo = repository(&queue);
    let session = play(queue, repo.clone(), "kk");
    assert_eq!(
        session.output,
        format!(
            "{}k\r\nIgnoring 'main' because it is the current branch\r\n{}k\r\n",
            prompt("a", 1, 1),
            prompt("b", 3, 3)
        )
    );
    assert_eq!(session.outcome, Some(Ok(())));
    assert_eq!(session.repository, repo);

    let queue = vec![branch("a", 1, 1), current("main", 2, 2)];
    let repo = repository(&queue);
    let session = play(queue, repo, "d");
    assert_eq!(session.outcome, Some(Ok(())));
    assert_eq!(session.repository.get("main"), Some(&id(2)));
    assert_eq!(session.repository.get("a"), None);
    assert!(session
        .output
        .ends_with("Ignoring 'main' because it is the current branch\r\n"));
}

#[test]
fn queue_of_the_checked_out_branch_alone_ends_at_once() {
    let queue = vec![current("main", 1, 1)];
    let session = play(queue.clone(), repository(&queue), "d");
    assert_eq!(session.output, "Ignoring 'main' because it is the current branch\r\n");
    assert_eq!(session.outcome, Some(Ok(())));
    assert_eq!(session.keys_read, 0);
    assert_eq!(session.repository.len(), 1);
}

#[test]
fn undo_with_empty_buffer_asks_nothing_of_the_repository() {
    let queue = vec![branch("a", 1, 1), branch("b", 2, 2)];
    let (mut review, _) = Review::begin(queue);
    let output = review.act_on_branch(Event::Key(Some(b'u')));
    assert_eq!(
        output,
        format!("u\r\nNo branch to undo deletion of\r\n{}", prompt("a", 1, 1))
    );
    assert_eq!(review.pending(), &Request::ReadKey);
    assert_eq!(review.index(), 0);
    assert_eq!(review.deleted_branch(), &None);
}

#[test]
fn delete_then_undo_recreates_the_branch_at_its_commit() {
    let queue = vec![branch("a", 0x11, 1), branch("b", 0x22, 2)];
    let (mut review, _) = Review::begin(queue);
    assert_eq!(review.act_on_branch(Event::Key(Some(b'd'))), "d\r\n");
    assert_eq!(review.pending(), &Request::DeleteBranch { name: String::from("a") });
    assert_eq!(review.deleted_branch(), &None);
    let output = review.act_on_branch(Event::Done);
    assert_eq!(
        output,
        format!("Deleted branch 'a', to undo select 'u'\r\n{}", prompt("b", 0x22, 2))
    );
    assert_eq!(review.deleted_branch(), &Some(branch("a", 0x11, 1)));
    assert_eq!(review.index(), 1);
    assert_eq!(review.act_on_branch(Event::Key(Some(b'u'))), "u\r\n");
    assert_eq!(
        review.pending(),
        &Request::CreateBranch { name: String::from("a"), id: id(0x11) }
    );
    let output = review.act_on_branch(Event::Done);
    assert_eq!(
        output,
        format!("Undoing deletion of branch 'a'\r\n{}", prompt("b", 0x22, 2))
    );
    assert_eq!(review.deleted_branch(), &None);
    assert_eq!(review.pending(), &Request::ReadKey);
    assert_eq!(review.index(), 1);
}

#[test]
fn undo_after_two_deletions_restores_only_the_second() {
    let queue = vec![branch("b1", 1, 1), branch("b2", 2, 2), branch("b3", 3, 3)];
    let repo = repository(&queue);
    let session = play(queue, repo, "dduuq");
    assert_eq!(session.outcome, Some(Ok(())));
    assert_eq!(session.repository.get("b1"), None);
    assert_eq!(session.repository.get("b2"), Some(&id(2)));
    assert_eq!(session.repository.get("b3"), Some(&id(3)));
    assert_eq!(
        session.output,
        format!(
            "{p1}d\r\nDeleted branch 'b1', to undo select 'u'\r\n\
             {p2}d\r\nDeleted branch 'b2', to undo select 'u'\r\n\
             {p3}u\r\nUndoing deletion of branch 'b2'\r\n\
             {p3}u\r\nNo branch to undo deletion of\r\n\
             {p3}q\r\nQuitting...\r\n",
            p1 = prompt("b1", 1, 1),
            p2 = prompt("b2", 2, 2),
            p3 = prompt("b3", 3, 3)
        )
    );
}

#[test]
fn help_prompts_for_the_same_branch_again() {
    let queue = vec![branch("a", 1, 1), branch("b", 2, 2)];
    let (mut review, first) = Review::begin(queue);
    let output = review.act_on_branch(Event::Key(Some(b'?')));
    assert_eq!(output, format!("?\r\n{}{}", LEGEND, first));
    assert_eq!(review.index(), 0);
    assert_eq!(review.pending(), &Request::ReadKey);
    let output = review.act_on_branch(Event::Key(Some(b'?')));
    assert_eq!(output, format!("?\r\n{}{}", LEGEND, first));
    assert_eq!(review.index(), 0);
}

#[test]
fn quit_leaves_later_branches_untouched() {
    let queue = vec![branch("a", 1, 1), branch("b", 2, 2), branch("c", 3, 3)];
    let repo = repository(&queue);
    let session = play(queue, repo, "dqdd");
    assert_eq!(session.outcome, Some(Ok(())));
    assert_eq!(session.keys_read, 2);
    assert_eq!(session.repository.get("a"), None);
    assert_eq!(session.repository.get("b"), Some(&id(2)));
    assert_eq!(session.repository.get("c"), Some(&id(3)));
    assert!(session.output.ends_with(&format!("{}q\r\nQuitting...\r\n", prompt("b", 2, 2))));
}

#[test]
fn finished_review_ignores_what_is_reported() {
    let queue = vec![branch("a", 1, 1), branch("b", 2, 2)];
    let (mut review, _) = Review::begin(queue);
    review.act_on_branch(Event::Key(Some(b'q')));
    assert!(review.is_finished());
    assert_eq!(review.act_on_branch(Event::Key(Some(b'd'))), "");
    assert_eq!(review.act_on_branch(Event::Done), "");
    assert_eq!(review.act_on_branch(Event::Failed(String::from("late"))), "");
    assert_eq!(review.pending(), &Request::Finish(Ok(())));
    assert_eq!(review.index(), 0);
}

#[test]
fn keep_moves_on_without_a_word() {
    let queue = vec![branch("a", 1, 1), branch("b", 2, 2)];
    let (mut review, _) = Review::begin(queue);
    let output = review.act_on_branch(Event::Key(Some(b'k')));
    assert_eq!(output, format!("k\r\n{}", prompt("b", 2, 2)));
    assert_eq!(review.index(), 1);
    let output = review.act_on_branch(Event::Key(Some(b'k')));
    assert_eq!(output, "k\r\n");
    assert_eq!(review.pending(), &Request::Finish(Ok(())));
    assert_eq!(review.index(), 2);
}

#[test]
fn read_without_a_byte_prompts_again() {
    let queue = vec![branch("a", 1, 1)];
    let (mut review, first) = Review::begin(queue);
    assert_eq!(review.act_on_branch(Event::Key(None)), first);
    assert_eq!(review.pending(), &Request::ReadKey);
    assert_eq!(review.index(), 0);
}

#[test]
fn failed_deletion_ends_the_review_with_the_error() {
    let queue = vec![branch("a", 1, 1), branch("b", 2, 2)];
    let session = play(queue, BTreeMap::new(), "dk");
    assert_eq!(
        session.outcome,
        Some(Err(Error::GitError(String::from("cannot locate local branch 'a'"))))
    );
    assert_eq!(session.keys_read, 1);
    assert_eq!(session.output, format!("{}d\r\n", prompt("a", 1, 1)));
}

#[test]
fn failed_restore_ends_the_review_with_the_error() {
    let queue = vec![branch("a", 1, 1), branch("b", 2, 2)];
    let (mut review, _) = Review::begin(queue);
    review.act_on_branch(Event::Key(Some(b'd')));
    review.act_on_branch(Event::Done);
    review.act_on_branch(Event::Key(Some(b'u')));
    let output = review.act_on_branch(Event::Failed(String::from("exists")));
    assert_eq!(output, "");
    assert_eq!(
        review.pending(),
        &Request::Finish(Err(Error::GitError(String::from("exists"))))
    );
}

#[test]
fn event_that_answers_nothing_changes_nothing() {
    let queue = vec![branch("a", 1, 1), branch("b", 2, 2)];
    let (mut review, _) = Review::begin(queue);
    assert_eq!(review.act_on_branch(Event::Done), "");
    assert_eq!(review.act_on_branch(Event::Failed(String::from("stray"))), "");
    assert_eq!(review.pending(), &Request::ReadKey);
    review.act_on_branch(Event::Key(Some(b'd')));
    assert_eq!(review.act_on_branch(Event::Key(Some(b'k'))), "");
    assert_eq!(review.pending(), &Request::DeleteBranch { name: String::from("a") });
    assert_eq!(review.index(), 0);
}

#[test]
fn a_new_deletion_replaces_the_buffer() {
    let queue = vec![branch("a", 1, 1), branch("b", 2, 2), branch("c", 3, 3)];
    let (mut review, _) = Review::begin(queue);
    review.act_on_branch(Event::Key(Some(b'd')));
    review.act_on_branch(Event::Done);
    assert_eq!(review.deleted_branch(), &Some(branch("a", 1, 1)));
    review.act_on_branch(Event::Key(Some(b'k')));
    assert_eq!(review.deleted_branch(), &Some(branch("a", 1, 1)));
    let (mut review, _) = Review::begin(vec![branch("a", 1, 1), branch("b", 2, 2), branch("c", 3, 3)]);
    review.act_on_branch(Event::Key(Some(b'd')));
    review.act_on_branch(Event::Done);
    review.act_on_branch(Event::Key(Some(b'd')));
    review.act_on_branch(Event::Done);
    assert_eq!(review.deleted_branch(), &Some(branch("b", 2, 2)));
}
