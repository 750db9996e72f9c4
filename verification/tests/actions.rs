use branch_review::action::BranchAction;
use branch_review::branch::{Branch, CommitId};
use branch_review::decision::get_branch_action_from_user;
use branch_review::error::Error;
use branch_review::text::{
    deleted_line, echo_line, help_lines, ignoring_line, prompt_line, undoing_line,
};
use branch_review::time::CommitTime;

fn id_from(first: [u8; 4]) -> CommitId {
    let mut bytes = [0u8; 20];
    bytes[..4].copy_from_slice(&first);
    CommitId { bytes }
}

fn feature_branch() -> Branch {
    Branch {
        time: CommitTime::from_git(1_431_648_000, 0).unwrap(),
        id: id_from([0xde, 0xad, 0xbe, 0xef]),
        name: String::from("feature/login"),
        is_head: false,
    }
}

const PROMPT: &str = "'feature/login' (deadbee) last commit at 2015-05-15 00:00:00 (k/d/q/u/?) > ";

const LEGEND: &str = "k - Keep the branch\r\n\
d - Delete the branch\r\n\
u - Undo last deleted branch\r\n\
q - Quit\r\n\
? - Show this help text\r\n";

#[test]
fn keys_map_to_their_actions() {
    assert_eq!(BranchAction::try_from('k'), Ok(BranchAction::Keep));
    assert_eq!(BranchAction::try_from('d'), Ok(BranchAction::Delete));
    assert_eq!(BranchAction::try_from('u'), Ok(BranchAction::Undo));
    assert_eq!(BranchAction::try_from('q'), Ok(BranchAction::Quit));
}

#[test]
fn other_keys_are_rejected_with_the_key() {
    assert_eq!(BranchAction::try_from('x'), Err(Error::InvalidInput('x')));
    assert_eq!(BranchAction::try_from('K'), Err(Error::InvalidInput('K')));
    assert_eq!(BranchAction::try_from('?'), Err(Error::InvalidInput('?')));
    assert_eq!(BranchAction::try_from('\n'), Err(Error::InvalidInput('\n')));
}

#[test]
fn invalid_input_message_names_the_key() {
    assert_eq!(
        Error::InvalidInput('x').message(),
        "Invalid input, Dont know what to do with 'x'"
    );
}

#[test]
fn described_errors_report_their_description() {
    assert_eq!(Error::GitError(String::from("no such branch")).message(), "no such branch");
    assert_eq!(Error::CrosstermError(String::from("not a tty")).message(), "not a tty");
    assert_eq!(Error::FromUtf8Error(String::from("bad byte")).message(), "bad byte");
}

#[test]
fn short_id_is_seven_lower_case_hex_digits() {
    assert_eq!(id_from([0xde, 0xad, 0xbe, 0xef]).short(), "deadbee");
    assert_eq!(id_from([0x00, 0x01, 0x0a, 0xf0]).short(), "00010af");
    assert_eq!(CommitId { bytes: [0xff; 20] }.short(), "fffffff");
    assert_eq!(CommitId { bytes: [0x9a; 20] }.short(), "9a9a9a9");
}

#[test]
fn prompt_shows_name_short_id_and_time() {
    assert_eq!(prompt_line(&feature_branch()), PROMPT);
}

#[test]
fn legend_has_five_lines_one_for_each_key() {
    assert_eq!(help_lines(), LEGEND);
    let legend = help_lines();
    let lines: Vec<&str> = legend.split_terminator("\r\n").collect();
    assert_eq!(lines.len(), 5);
    let keys: Vec<char> = lines.iter().map(|line| line.chars().next().unwrap()).collect();
    assert_eq!(keys, vec!['k', 'd', 'u', 'q', '?']);
}

#[test]
fn help_then_quit_prints_echo_legend_and_prompt() {
    let branch = feature_branch();
    let help = get_branch_action_from_user(&branch, Some(b'?'));
    assert_eq!(
        help.output,
        format!(
            "?\r\nk - Keep the branch\r\nd - Delete the branch\r\n\
             u - Undo last deleted branch\r\nq - Quit\r\n? - Show this help text\r\n{}",
            PROMPT
        )
    );
    assert_eq!(help.decision, None);
    let quit = get_branch_action_from_user(&branch, Some(b'q'));
    assert_eq!(quit.output, "q\r\n");
    assert_eq!(quit.decision, Some(Ok(BranchAction::Quit)));
}

#[test]
fn error_message_is_a_single_line() {
    assert!(!Error::InvalidInput('x').message().contains('\n'));
    assert!(!Error::InvalidInput('x').message().contains('\r'));
}

#[test]
fn status_lines_quote_the_name() {
    assert_eq!(ignoring_line("main"), "Ignoring 'main' because it is the current branch\r\n");
    assert_eq!(deleted_line("old"), "Deleted branch 'old', to undo select 'u'\r\n");
    assert_eq!(undoing_line("old"), "Undoing deletion of branch 'old'\r\n");
    assert_eq!(echo_line('d'), "d\r\n");
}

#[test]
fn a_deciding_key_is_echoed_and_decides() {
    let branch = feature_branch();
    let answer = get_branch_action_from_user(&branch, Some(b'k'));
    assert_eq!(answer.output, "k\r\n");
    assert_eq!(answer.decision, Some(Ok(BranchAction::Keep)));
    let answer = get_branch_action_from_user(&branch, Some(b'd'));
    assert_eq!(answer.output, "d\r\n");
    assert_eq!(answer.decision, Some(Ok(BranchAction::Delete)));
    let answer = get_branch_action_from_user(&branch, Some(b'u'));
    assert_eq!(answer.decision, Some(Ok(BranchAction::Undo)));
    let answer = get_branch_action_from_user(&branch, Some(b'q'));
    assert_eq!(answer.decision, Some(Ok(BranchAction::Quit)));
}

#[test]
fn help_prints_the_legend_and_the_same_prompt() {
    let branch = feature_branch();
    let answer = get_branch_action_from_user(&branch, Some(b'?'));
    assert_eq!(answer.output, format!("?\r\n{}{}", LEGEND, PROMPT));
    assert_eq!(answer.decision, None);
}

#[test]
fn an_empty_read_prompts_again() {
    let branch = feature_branch();
    let answer = get_branch_action_from_user(&branch, None);
    assert_eq!(answer.output, PROMPT);
    assert_eq!(answer.decision, None);
}

#[test]
fn an_unknown_key_is_echoed_and_rejected() {
    let branch = feature_branch();
    let answer = get_branch_action_from_user(&branch, Some(b'x'));
    assert_eq!(answer.output, "x\r\n");
    assert_eq!(answer.decision, Some(Err(Error::InvalidInput('x'))));
}

#[test]
fn a_high_byte_is_read_as_its_code_point() {
    let branch = feature_branch();
    let answer = get_branch_action_from_user(&branch, Some(0xe9));
    assert_eq!(answer.output, "\u{e9}\r\n");
    assert_eq!(answer.decision, Some(Err(Error::InvalidInput('\u{e9}'))));
}
