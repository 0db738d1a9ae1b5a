use vstd::prelude::*;
use vstd::string::*;

verus! {

/// The longest pending input the terminal tab keeps, in characters.
pub const MAX_INPUT_CHARS: usize = 100;

/// What std's lossy UTF-8 decoding makes of a byte sequence.
pub uninterp spec fn lossy_text(bytes: Seq<u8>) -> Seq<char>;

/// Relies on `String::from_utf8_lossy`: the text depends on the bytes alone,
/// and no bytes decode to no text.
#[verifier::external_body]
fn decode_lossy(bytes: &Vec<u8>) -> (r: String)
    ensures
        r@ == lossy_text(bytes@),
        bytes@.len() == 0 ==> r@.len() == 0,
{
    String::from_utf8_lossy(bytes).into_owned()
}

/// A message of the terminal tab.
#[derive(Clone, Debug)]
pub enum ShellMessage {
    /// Run the pending input as a command.
    SubmitInput,
    /// Replace the pending input as it stands.
    InputChanged(String),
    /// Replace the pending input, keeping at most its first hundred characters.
    DataChanged(String),
}

/// What the terminal tab asks its host to do after a message.
#[derive(Clone, Debug)]
pub enum ShellEffect {
    Nothing,
    /// Spawn the whole line as one program, without arguments, and hand the
    /// outcome back through `finish_command`.
    RunCommand(String),
}

/// How one attempt to run a command ended, as the host observed it.
#[derive(Clone, Debug)]
pub enum CommandRun {
    /// The program could not be started; the text says why.
    SpawnFailed(String),
    /// The program ran to its end.
    Exited { success: bool, stdout: Vec<u8>, stderr: Vec<u8> },
}

/// The success flag and the captured text of one command.
#[derive(Clone, Debug)]
pub struct ProcessOutcome {
    pub exit_success: bool,
    pub captured_text: String,
}

/// The diagnostic shown when a program could not be started and the host gave
/// no reason.
pub open spec fn spawn_fallback() -> Seq<char> {
    seq!['c', 'o', 'u', 'l', 'd', ' ', 'n', 'o', 't', ' ', 's', 't', 'a', 'r', 't', ' ', 't', 'h', 'e', ' ', 'p', 'r', 'o', 'g', 'r', 'a', 'm']
}

/// The text of a run that ends in the transcript.
pub open spec fn captured_of(run: CommandRun) -> Seq<char> {
    match run {
        CommandRun::SpawnFailed(why) => if why@.len() > 0 {
            why@
        } else {
            spawn_fallback()
        },
        CommandRun::Exited { success, stdout, stderr } => if success {
            lossy_text(stdout@)
        } else {
            lossy_text(stderr@)
        },
    }
}

pub open spec fn succeeded(run: CommandRun) -> bool {
    match run {
        CommandRun::SpawnFailed(_) => false,
        CommandRun::Exited { success, .. } => success,
    }
}

/// Turns a finished run into an outcome: standard output on success, standard
/// error otherwise, and a non-empty reason when the program never started.
pub fn outcome_of(run: CommandRun) -> (r: ProcessOutcome)
    ensures
        r.exit_success == succeeded(run),
        r.captured_text@ == captured_of(run),
        match run {
            CommandRun::Exited { success, stdout, .. } => success && stdout@.len() == 0 ==> r.captured_text@.len() == 0,
            CommandRun::SpawnFailed(_) => r.captured_text@.len() > 0,
        },
{
    match run {
        CommandRun::SpawnFailed(why) => {
            proof {
                reveal_strlit("could not start the program");
            }
            let text = if why.as_str().unicode_len() > 0 {
                why
            } else {
                String::from_str("could not start the program")
            };
            ProcessOutcome { exit_success: false, captured_text: text }
        },
        CommandRun::Exited { success, stdout, stderr } => {
            let text = if success {
                decode_lossy(&stdout)
            } else {
                decode_lossy(&stderr)
            };
            ProcessOutcome { exit_success: success, captured_text: text }
        },
    }
}

/// The state of the terminal tab, as values.
pub struct ShellModel {
    pub output: Seq<char>,
    pub input: Seq<char>,
}

/// A text cut to its first `MAX_INPUT_CHARS` characters.
pub open spec fn capped(s: Seq<char>) -> Seq<char> {
    if s.len() <= MAX_INPUT_CHARS as int {
        s
    } else {
        s.take(MAX_INPUT_CHARS as int)
    }
}

/// The state after a message; a submission changes nothing until its outcome
/// comes back.
pub open spec fn shell_step(m: ShellModel, msg: ShellMessage) -> ShellModel {
    match msg {
        ShellMessage::SubmitInput => m,
        ShellMessage::InputChanged(v) => ShellModel { input: v@, ..m },
        ShellMessage::DataChanged(d) => ShellModel { input: capped(d@), ..m },
    }
}

/// What a message asks of the host.
pub open spec fn shell_effect_ok(m: ShellModel, msg: ShellMessage, e: ShellEffect) -> bool {
    match e {
        ShellEffect::Nothing => !(msg is SubmitInput),
        ShellEffect::RunCommand(line) => msg is SubmitInput && line@ == m.input,
    }
}

/// One transcript line: the prompt marker, the text, a line break.
pub open spec fn transcript_line(text: Seq<char>) -> Seq<char> {
    seq!['$', ' '] + text + seq!['\n']
}

/// The state once an outcome has come back: its text is appended to the
/// transcript and the pending input is cleared.
pub open spec fn shell_finished(m: ShellModel, text: Seq<char>) -> ShellModel {
    ShellModel { output: m.output + transcript_line(text), input: Seq::empty() }
}

/// Input typed through the capping path keeps exactly its first
/// `MAX_INPUT_CHARS` characters when it is longer, and all of itself otherwise.
pub proof fn lemma_capped_keeps_prefix(s: Seq<char>)
    ensures
        s.len() >= MAX_INPUT_CHARS ==> capped(s).len() == MAX_INPUT_CHARS,
        s.len() >= MAX_INPUT_CHARS ==> capped(s) == s.take(MAX_INPUT_CHARS as int),
        s.len() <= MAX_INPUT_CHARS ==> capped(s) == s,
        forall|i: int| 0 <= i < capped(s).len() ==> capped(s)[i] == s[i],
{
    if s.len() == MAX_INPUT_CHARS {
        assert(s.take(MAX_INPUT_CHARS as int) =~= s);
    }
}

/// A finished command adds exactly one prefixed line to the transcript, and
/// a silent command adds the bare marker line.
pub proof fn lemma_finish_adds_one_line(m: ShellModel, text: Seq<char>)
    ensures
        shell_finished(m, text).output == m.output + transcript_line(text),
        shell_finished(m, text).output.len() == m.output.len() + text.len() + 3,
        shell_finished(m, text).input.len() == 0,
        text.len() == 0 ==> shell_finished(m, text).output == m.output + seq!['$', ' ', '\n'],
{
    if text.len() == 0 {
        assert(transcript_line(text) =~= seq!['$', ' ', '\n']);
    }
}

/// Cuts a text to its first `MAX_INPUT_CHARS` characters.
pub fn cap_input(s: String) -> (r: String)
    ensures
        r@ == capped(s@),
{
    let n = s.as_str().unicode_len();
    if n <= MAX_INPUT_CHARS {
        s
    } else {
        String::from_str(s.as_str().substring_char(0, MAX_INPUT_CHARS))
    }
}

/// The terminal tab: a transcript of past commands and the line being typed.
pub struct ShellViewTab {
    output: String,
    input: String,
}

impl View for ShellViewTab {
    type V = ShellModel;

    closed spec fn view(&self) -> ShellModel {
        ShellModel { output: self.output@, input: self.input@ }
    }
}

impl ShellViewTab {
    pub fn new() -> (r: Self)
        ensures
            r@.output.len() == 0,
            r@.input.len() == 0,
    {
        ShellViewTab { output: String::new(), input: String::new() }
    }

    /// The name the tab bar shows for this tab.
    pub fn title(&self) -> (r: String)
        ensures
            r@ == seq!['T', 'e', 'r', 'm', 'i', 'n', 'a', 'l'],
    {
        proof {
            reveal_strlit("Terminal");
        }
        String::from_str("Terminal")
    }

    pub fn output(&self) -> (r: &String)
        ensures
            r@ == self@.output,
    {
        &self.output
    }

    pub fn input(&self) -> (r: &String)
        ensures
            r@ == self@.input,
    {
        &self.input
    }

    /// Applies a message; a submission hands the pending line to the host.
    pub fn update(&mut self, message: ShellMessage) -> (e: ShellEffect)
        ensures
            final(self)@ == shell_step(old(self)@, message),
            shell_effect_ok(old(self)@, message, e),
    {
        match message {
            ShellMessage::SubmitInput => ShellEffect::RunCommand(self.input.clone()),
            ShellMessage::InputChanged(value) => {
                self.input = value;
                ShellEffect::Nothing
            },
            ShellMessage::DataChanged(data) => {
                self.input = cap_input(data);
                ShellEffect::Nothing
            },
        }
    }

    /// Folds the outcome of a submitted command into the transcript.
    pub fn finish_command(&mut self, outcome: &ProcessOutcome)
        ensures
            final(self)@ == shell_finished(old(self)@, outcome.captured_text@),
    {
        proof {
            reveal_strlit("$ ");
            reveal_strlit("\n");
        }
        self.output.append("$ ");
        self.output.append(outcome.captured_text.as_str());
        self.output.append("\n");
        self.input = String::new();
        assert(self.output@ =~= old(self)@.output + transcript_line(outcome.captured_text@));
    }
}

} // verus!
