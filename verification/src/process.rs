//! Processes of a bottle: the process list of the host, the processes that
//! belong to a bottle, and those to end when a bottle is stopped.

use crate::text::{
    chars_of, contains, decimal_u32_of, has_substring, is_whitespace, lowercase, lowercase_of,
    opt_text, parse_u32, slice_string, string_of, whitespace_of,
};
use vstd::prelude::*;
use vstd::string::StringExecFns;

verus! {

/// One process of the host.
#[derive(Clone, Debug)]
pub struct ProcessInfo {
    pub pid: u32,
    pub parent_pid: u32,
    pub name: String,
    pub command: String,
    pub bottle_path: Option<String>,
}

/// Mathematical model of a `ProcessInfo`.
pub struct ProcModel {
    pub pid: u32,
    pub parent_pid: u32,
    pub name: Seq<char>,
    pub command: Seq<char>,
    pub bottle_path: Option<Seq<char>>,
}

impl View for ProcessInfo {
    type V = ProcModel;

    open spec fn view(&self) -> ProcModel {
        ProcModel {
            pid: self.pid,
            parent_pid: self.parent_pid,
            name: self.name@,
            command: self.command@,
            bottle_path: opt_text(self.bottle_path),
        }
    }
}

/// Lists and ends the processes of a bottle.
pub struct ProcessManager;

/// A list of processes, by their models.
pub open spec fn procs_model(procs: Seq<ProcessInfo>) -> Seq<ProcModel> {
    procs.map_values(|p: ProcessInfo| p@)
}

/// What follows the last slash of a text, or all of it where it has none.
pub open spec fn last_segment(s: Seq<char>) -> Seq<char>
    decreases s.len(),
{
    if s.len() == 0 || s.last() == '/' {
        Seq::empty()
    } else {
        last_segment(s.drop_last()).push(s.last())
    }
}

/// The first `n` words of a line from the third on, with one space between
/// them.
pub open spec fn command_of(words: Seq<Seq<char>>, n: nat) -> Seq<char>
    decreases n,
{
    if n <= 2 {
        Seq::empty()
    } else if n == 3 {
        words[2]
    } else {
        command_of(words, (n - 1) as nat) + " "@ + words[n - 1]
    }
}

/// The number that a word spells in decimal, or zero.
pub open spec fn number_of(word: Seq<char>) -> u32 {
    match decimal_u32_of(word) {
        Some(x) => x,
        None => 0,
    }
}

/// The process that the words of one line describe: process number, parent
/// number, and the command with its arguments. A line of fewer than three
/// words describes none.
pub open spec fn record_of(words: Seq<Seq<char>>) -> Option<ProcModel> {
    if words.len() < 3 {
        None
    } else {
        Some(
            ProcModel {
                pid: number_of(words[0]),
                parent_pid: number_of(words[1]),
                name: last_segment(words[2]),
                command: command_of(words, words.len()),
                bottle_path: None,
            },
        )
    }
}

/// The state of reading a process list: whether the heading line is behind,
/// the words of the line in hand, the characters of the word in hand, and
/// the processes read so far.
pub struct ListState {
    pub heading_done: bool,
    pub words: Seq<Seq<char>>,
    pub word: Seq<char>,
    pub procs: Seq<ProcModel>,
}

/// The words of a line once the word in hand is closed.
pub open spec fn close_word(words: Seq<Seq<char>>, word: Seq<char>) -> Seq<Seq<char>> {
    if word.len() > 0 {
        words.push(word)
    } else {
        words
    }
}

/// The state once the line in hand is closed: unless it is the heading, its
/// process is added if it describes one.
pub open spec fn close_line(state: ListState) -> ListState {
    let words = close_word(state.words, state.word);
    ListState {
        heading_done: true,
        words: Seq::empty(),
        word: Seq::empty(),
        procs: if state.heading_done {
            match record_of(words) {
                Some(p) => state.procs.push(p),
                None => state.procs,
            }
        } else {
            state.procs
        },
    }
}

/// The state after the first `n` characters of a process list. A line feed
/// closes the line, any other white space closes the word.
pub open spec fn list_scan(content: Seq<char>, n: nat) -> ListState
    decreases n,
{
    if n == 0 {
        ListState {
            heading_done: false,
            words: Seq::empty(),
            word: Seq::empty(),
            procs: Seq::empty(),
        }
    } else {
        let before = list_scan(content, (n - 1) as nat);
        let c = content[n - 1];
        if c == '\n' {
            close_line(before)
        } else if whitespace_of(c) {
            ListState {
                words: close_word(before.words, before.word),
                word: Seq::empty(),
                ..before
            }
        } else {
            ListState { word: before.word.push(c), ..before }
        }
    }
}

/// The state that the buffers of a reader stand for.
pub open spec fn list_state(
    heading_done: bool,
    words: Seq<Vec<char>>,
    word: Seq<char>,
    procs: Seq<ProcessInfo>,
) -> ListState {
    ListState {
        heading_done,
        words: words.map_values(|w: Vec<char>| w@),
        word,
        procs: procs_model(procs),
    }
}

/// The processes that a process list describes: one for each line after the
/// heading that has at least three words.
pub open spec fn processes_of(content: Seq<char>) -> Seq<ProcModel> {
    close_line(list_scan(content, content.len())).procs
}

/// A process with a given number is among the processes.
pub open spec fn has_pid(procs: Seq<ProcModel>, pid: u32) -> bool {
    exists|i: int| 0 <= i < procs.len() && (#[trigger] procs[i]).pid == pid
}

/// A process marked as one of the bottle at `path`.
pub open spec fn adopted(p: ProcModel, path: Seq<char>) -> ProcModel {
    ProcModel { bottle_path: Some(path), ..p }
}

/// Those of the first `n` processes whose command, in lower case, names the
/// bottle's path, marked as the bottle's.
pub open spec fn direct_matches(all: Seq<ProcModel>, path: Seq<char>, n: nat) -> Seq<ProcModel>
    decreases n,
{
    if n == 0 {
        Seq::empty()
    } else {
        let before = direct_matches(all, path, (n - 1) as nat);
        if has_substring(lowercase_of(all[n - 1].command), path) {
            before.push(adopted(all[n - 1], path))
        } else {
            before
        }
    }
}

/// One pass over the first `n` processes: each whose parent is among `found`
/// by then, and which itself is not, is added to it.
pub open spec fn pass(all: Seq<ProcModel>, found: Seq<ProcModel>, path: Seq<char>, n: nat) -> Seq<
    ProcModel,
>
    decreases n,
{
    if n == 0 {
        found
    } else {
        let before = pass(all, found, path, (n - 1) as nat);
        let p = all[n - 1];
        if has_pid(before, p.parent_pid) && !has_pid(before, p.pid) {
            before.push(adopted(p, path))
        } else {
            before
        }
    }
}

/// Passes repeated until one adds nothing, at most `fuel` times.
pub open spec fn closure(all: Seq<ProcModel>, found: Seq<ProcModel>, path: Seq<char>, fuel: nat) -> Seq<
    ProcModel,
>
    decreases fuel,
{
    if fuel == 0 {
        found
    } else {
        let next = pass(all, found, path, all.len());
        if next.len() == found.len() {
            found
        } else {
            closure(all, next, path, (fuel - 1) as nat)
        }
    }
}

/// The processes of the bottle at `path`: those whose command names the
/// path, and all their descendants.
pub open spec fn bottle_processes(all: Seq<ProcModel>, path: Seq<char>) -> Seq<ProcModel> {
    closure(all, direct_matches(all, path, all.len()), path, all.len())
}

/// The numbers of those of the first `n` processes that are ended: all but
/// the processes 0 and 1.
pub open spec fn kill_targets(procs: Seq<ProcModel>, n: nat) -> Seq<u32>
    decreases n,
{
    if n == 0 {
        Seq::empty()
    } else {
        let before = kill_targets(procs, (n - 1) as nat);
        if procs[n - 1].pid <= 1 {
            before
        } else {
            before.push(procs[n - 1].pid)
        }
    }
}

impl ProcessInfo {
    /// A copy of the process, marked as one of the bottle at `path`.
    fn adopt(&self, path: &String) -> (p: ProcessInfo)
        ensures
            p@ == adopted(self@, path@),
    {
        ProcessInfo {
            pid: self.pid,
            parent_pid: self.parent_pid,
            name: self.name.clone(),
            command: self.command.clone(),
            bottle_path: Some(path.clone()),
        }
    }
}

impl ProcessManager {
    /// What follows the last slash of a word.
    fn segment(word: &Vec<char>) -> (name: String)
        ensures
            name@ == last_segment(word@),
    {
        let mut from: usize = word.len();
        proof {
            assert(word@.take(word.len() as int) =~= word@);
            assert(last_segment(word@) + word@.subrange(word.len() as int, word.len() as int)
                =~= last_segment(word@));
        }
        while from > 0 && word[from - 1] != '/'
            invariant
                from <= word.len(),
                last_segment(word@) == last_segment(word@.take(from as int)) + word@.subrange(
                    from as int,
                    word.len() as int,
                ),
            decreases from,
        {
            proof {
                let head = word@.take(from as int);
                assert(head.drop_last() =~= word@.take(from - 1));
                assert(last_segment(head) == last_segment(word@.take(from - 1)).push(
                    word@[from - 1],
                ));
                assert(last_segment(word@.take(from - 1)).push(word@[from - 1]) + word@.subrange(
                    from as int,
                    word.len() as int,
                ) =~= last_segment(word@.take(from - 1)) + word@.subrange(
                    from - 1,
                    word.len() as int,
                ));
            }
            from -= 1;
        }
        proof {
            let head = word@.take(from as int);
            assert(last_segment(head) =~= Seq::<char>::empty());
            assert(last_segment(head) + word@.subrange(from as int, word.len() as int)
                =~= word@.subrange(from as int, word.len() as int));
        }
        slice_string(word, from, word.len())
    }

    /// The process that the words of one line describe.
    fn record(words: &Vec<Vec<char>>) -> (p: Option<ProcessInfo>)
        ensures
            match p {
                Some(info) => record_of(words@.map_values(|w: Vec<char>| w@)) == Some(info@),
                None => record_of(words@.map_values(|w: Vec<char>| w@)).is_none(),
            },
    {
        let ghost model = words@.map_values(|w: Vec<char>| w@);
        if words.len() < 3 {
            return None;
        }
        let first = string_of(&words[0]);
        let second = string_of(&words[1]);
        let pid: u32 = match parse_u32(first.as_str()) {
            Some(x) => x,
            None => 0,
        };
        let parent_pid: u32 = match parse_u32(second.as_str()) {
            Some(x) => x,
            None => 0,
        };
        let mut command = string_of(&words[2]);
        let mut i: usize = 3;
        while i < words.len()
            invariant
                3 <= i <= words.len(),
                model == words@.map_values(|w: Vec<char>| w@),
                command@ == command_of(model, i as nat),
            decreases words.len() - i,
        {
            command.append(" ");
            let word = string_of(&words[i]);
            command.append(word.as_str());
            assert(model[i as int] == words@[i as int]@);
            i += 1;
        }
        Some(
            ProcessInfo {
                pid,
                parent_pid,
                name: Self::segment(&words[2]),
                command,
                bottle_path: None,
            },
        )
    }

    /// Closes the word in hand.
    fn end_word(words: &mut Vec<Vec<char>>, word: &mut Vec<char>)
        ensures
            final(words)@.map_values(|w: Vec<char>| w@) == close_word(
                old(words)@.map_values(|w: Vec<char>| w@),
                old(word)@,
            ),
            final(word)@ == Seq::<char>::empty(),
    {
        let ghost held = words@.map_values(|w: Vec<char>| w@);
        if word.len() > 0 {
            let mut closed: Vec<char> = Vec::new();
            std::mem::swap(word, &mut closed);
            words.push(closed);
            assert(words@.map_values(|w: Vec<char>| w@) =~= held.push(old(word)@));
        }
    }

    /// Closes the line in hand.
    fn end_line(
        heading_done: bool,
        words: &mut Vec<Vec<char>>,
        word: &mut Vec<char>,
        procs: &mut Vec<ProcessInfo>,
    )
        ensures
            list_state(true, final(words)@, final(word)@, final(procs)@) == close_line(
                list_state(heading_done, old(words)@, old(word)@, old(procs)@),
            ),
    {
        Self::end_word(words, word);
        if heading_done {
            let ghost listed = procs_model(procs@);
            match Self::record(words) {
                Some(p) => {
                    procs.push(p);
                    assert(procs_model(procs@) =~= listed.push(procs@.last()@));
                },
                None => {},
            }
        }
        let mut none: Vec<Vec<char>> = Vec::new();
        std::mem::swap(words, &mut none);
        assert(words@.map_values(|w: Vec<char>| w@) =~= Seq::<Seq<char>>::empty());
    }

    /// The processes that a process list describes. The list has a heading
    /// line, and then one line for each process: its number, the number of
    /// its parent, and its command.
    pub fn get_all_processes(listing: &str) -> (procs: Vec<ProcessInfo>)
        ensures
            procs_model(procs@) == processes_of(listing@),
    {
        let chars = chars_of(listing);
        let mut heading_done = false;
        let mut words: Vec<Vec<char>> = Vec::new();
        let mut word: Vec<char> = Vec::new();
        let mut procs: Vec<ProcessInfo> = Vec::new();
        let mut i: usize = 0;
        assert(words@.map_values(|w: Vec<char>| w@) =~= Seq::<Seq<char>>::empty());
        assert(procs_model(procs@) =~= Seq::<ProcModel>::empty());
        while i < chars.len()
            invariant
                i <= chars.len(),
                chars@ == listing@,
                list_scan(listing@, i as nat) == list_state(heading_done, words@, word@, procs@),
            decreases chars.len() - i,
        {
            let c = chars[i];
            if c == '\n' {
                Self::end_line(heading_done, &mut words, &mut word, &mut procs);
                heading_done = true;
            } else if is_whitespace(c) {
                Self::end_word(&mut words, &mut word);
            } else {
                word.push(c);
            }
            i += 1;
        }
        Self::end_line(heading_done, &mut words, &mut word, &mut procs);
        procs
    }

    /// Whether a process with a given number is among the processes.
    fn holds_pid(procs: &Vec<ProcessInfo>, pid: u32) -> (r: bool)
        ensures
            r == has_pid(procs_model(procs@), pid),
    {
        let mut i: usize = 0;
        while i < procs.len()
            invariant
                i <= procs.len(),
                forall|k: int| 0 <= k < i ==> (#[trigger] procs_model(procs@)[k]).pid != pid,
            decreases procs.len() - i,
        {
            if procs[i].pid == pid {
                assert(procs_model(procs@)[i as int].pid == pid);
                return true;
            }
            i += 1;
        }
        false
    }

    /// The processes of a bottle among the processes of the host: those
    /// whose command names the bottle's path, in any case, and all their
    /// descendants. Each is marked with the path, in lower case.
    pub fn get_bottle_processes(all: &Vec<ProcessInfo>, bottle_path: &str) -> (found: Vec<
        ProcessInfo,
    >)
        ensures
            procs_model(found@) == bottle_processes(procs_model(all@), lowercase_of(bottle_path@)),
    {
        let path = lowercase(bottle_path);
        let ghost model = procs_model(all@);
        let mut found: Vec<ProcessInfo> = Vec::new();
        let mut i: usize = 0;
        assert(procs_model(found@) =~= direct_matches(model, path@, 0));
        while i < all.len()
            invariant
                i <= all.len(),
                model == procs_model(all@),
                procs_model(found@) == direct_matches(model, path@, i as nat),
            decreases all.len() - i,
        {
            assert(model[i as int] == all@[i as int]@);
            let command = lowercase(all[i].command.as_str());
            if contains(command.as_str(), path.as_str()) {
                let ghost before = procs_model(found@);
                found.push(all[i].adopt(&path));
                assert(procs_model(found@) =~= before.push(found@.last()@));
            }
            i += 1;
        }
        let mut fuel: usize = all.len();
        while fuel > 0
            invariant
                model == procs_model(all@),
                path@ == lowercase_of(bottle_path@),
                bottle_processes(model, path@) == closure(
                    model,
                    procs_model(found@),
                    path@,
                    fuel as nat,
                ),
            decreases fuel,
        {
            let ghost start = procs_model(found@);
            let before_len = found.len();
            let mut k: usize = 0;
            while k < all.len()
                invariant
                    k <= all.len(),
                    model == procs_model(all@),
                    procs_model(found@) == pass(model, start, path@, k as nat),
                decreases all.len() - k,
            {
                assert(model[k as int] == all@[k as int]@);
                if Self::holds_pid(&found, all[k].parent_pid) && !Self::holds_pid(
                    &found,
                    all[k].pid,
                ) {
                    let ghost before = procs_model(found@);
                    found.push(all[k].adopt(&path));
                    assert(procs_model(found@) =~= before.push(found@.last()@));
                }
                k += 1;
            }
            if found.len() == before_len {
                proof {
                    lemma_pass_extends(model, start, path@, all.len() as nat);
                    assert(procs_model(found@) =~= start);
                }
                return found;
            }
            fuel -= 1;
        }
        found
    }

    /// The numbers of the processes to end when a bottle is stopped: all of
    /// its processes but the processes 0 and 1.
    pub fn kill_bottle_processes(procs: &Vec<ProcessInfo>) -> (targets: Vec<u32>)
        ensures
            targets@ == kill_targets(procs_model(procs@), procs@.len()),
    {
        let mut targets: Vec<u32> = Vec::new();
        let mut i: usize = 0;
        while i < procs.len()
            invariant
                i <= procs.len(),
                targets@ == kill_targets(procs_model(procs@), i as nat),
            decreases procs.len() - i,
        {
            assert(procs_model(procs@)[i as int] == procs@[i as int]@);
            if procs[i].pid > 1 {
                targets.push(procs[i].pid);
            }
            i += 1;
        }
        targets
    }
}

/// A pass keeps what was found and adds after it.
proof fn lemma_pass_extends(all: Seq<ProcModel>, found: Seq<ProcModel>, path: Seq<char>, n: nat)
    requires
        n <= all.len(),
    ensures
        found.len() <= pass(all, found, path, n).len(),
        pass(all, found, path, n).take(found.len() as int) == found,
        forall|pid: u32| has_pid(found, pid) ==> has_pid(pass(all, found, path, n), pid),
    decreases n,
{
    if n == 0 {
        assert(found.take(found.len() as int) =~= found);
    } else {
        lemma_pass_extends(all, found, path, (n - 1) as nat);
        let before = pass(all, found, path, (n - 1) as nat);
        let after = pass(all, found, path, n);
        assert(after.take(found.len() as int) =~= before.take(found.len() as int));
        assert forall|pid: u32| has_pid(found, pid) implies has_pid(after, pid) by {
            assert(has_pid(before, pid));
            let i = choose|i: int| 0 <= i < before.len() && (#[trigger] before[i]).pid == pid;
            assert(after[i] == before[i]);
        }
    }
}

/// The processes found are closed under descent: every process of the host
/// whose parent is among them is among them.
pub open spec fn closed(all: Seq<ProcModel>, found: Seq<ProcModel>) -> bool {
    forall|k: int|
        0 <= k < all.len() && has_pid(found, (#[trigger] all[k]).parent_pid) ==> has_pid(
            found,
            all[k].pid,
        )
}

/// How many of the first `n` processes are not among those found.
pub open spec fn missing(all: Seq<ProcModel>, found: Seq<ProcModel>, n: nat) -> nat
    decreases n,
{
    if n == 0 {
        0
    } else {
        missing(all, found, (n - 1) as nat) + if has_pid(found, all[n - 1].pid) {
            0nat
        } else {
            1nat
        }
    }
}

/// A pass that adds nothing has found every process whose parent was found.
proof fn lemma_pass_stalls(all: Seq<ProcModel>, found: Seq<ProcModel>, path: Seq<char>, n: nat)
    requires
        n <= all.len(),
        pass(all, found, path, n).len() == found.len(),
    ensures
        pass(all, found, path, n) == found,
        forall|k: int|
            0 <= k < n && has_pid(found, (#[trigger] all[k]).parent_pid) ==> has_pid(
                found,
                all[k].pid,
            ),
    decreases n,
{
    lemma_pass_extends(all, found, path, n);
    assert(pass(all, found, path, n) =~= pass(all, found, path, n).take(found.len() as int));
    if n > 0 {
        lemma_pass_extends(all, found, path, (n - 1) as nat);
        lemma_pass_stalls(all, found, path, (n - 1) as nat);
    }
}

/// A pass that adds something has found a process that was missing.
proof fn lemma_pass_finds(all: Seq<ProcModel>, found: Seq<ProcModel>, path: Seq<char>, n: nat) -> (k:
    int)
    requires
        n <= all.len(),
        pass(all, found, path, n).len() > found.len(),
    ensures
        0 <= k < n,
        !has_pid(found, all[k].pid),
        has_pid(pass(all, found, path, n), all[k].pid),
    decreases n,
{
    let before = pass(all, found, path, (n - 1) as nat);
    let after = pass(all, found, path, n);
    lemma_pass_extends(all, found, path, (n - 1) as nat);
    if before.len() > found.len() {
        let k = lemma_pass_finds(all, found, path, (n - 1) as nat);
        let i = choose|i: int| 0 <= i < before.len() && (#[trigger] before[i]).pid == all[k].pid;
        assert(after[i] == before[i]);
        k
    } else {
        lemma_pass_stalls(all, found, path, (n - 1) as nat);
        assert(after[after.len() - 1].pid == all[n - 1].pid);
        n - 1
    }
}

/// No more processes are missing than there are.
proof fn lemma_missing_bound(all: Seq<ProcModel>, found: Seq<ProcModel>, n: nat)
    ensures
        missing(all, found, n) <= n,
    decreases n,
{
    if n > 0 {
        lemma_missing_bound(all, found, (n - 1) as nat);
    }
}

/// Where nothing is missing, every process is found.
proof fn lemma_missing_none(all: Seq<ProcModel>, found: Seq<ProcModel>, n: nat)
    requires
        missing(all, found, n) == 0,
    ensures
        forall|k: int| 0 <= k < n ==> has_pid(found, (#[trigger] all[k]).pid),
    decreases n,
{
    if n > 0 {
        lemma_missing_none(all, found, (n - 1) as nat);
    }
}

/// Finding more leaves no more missing, and fewer where one of the first `n`
/// processes was found that was missing before.
proof fn lemma_missing_shrinks(
    all: Seq<ProcModel>,
    found: Seq<ProcModel>,
    next: Seq<ProcModel>,
    n: nat,
    k: int,
)
    requires
        forall|pid: u32| has_pid(found, pid) ==> has_pid(next, pid),
    ensures
        missing(all, next, n) <= missing(all, found, n),
        0 <= k < n && !has_pid(found, all[k].pid) && has_pid(next, all[k].pid) ==> missing(
            all,
            next,
            n,
        ) < missing(all, found, n),
    decreases n,
{
    if n > 0 {
        lemma_missing_shrinks(all, found, next, (n - 1) as nat, k);
    }
}

/// Passes repeated as often as processes are missing end closed under
/// descent.
proof fn lemma_closure_closed(
    all: Seq<ProcModel>,
    found: Seq<ProcModel>,
    path: Seq<char>,
    fuel: nat,
)
    requires
        missing(all, found, all.len()) <= fuel,
    ensures
        closed(all, closure(all, found, path, fuel)),
    decreases fuel,
{
    if fuel == 0 {
        lemma_missing_none(all, found, all.len());
    } else {
        let next = pass(all, found, path, all.len());
        lemma_pass_extends(all, found, path, all.len());
        if next.len() == found.len() {
            lemma_pass_stalls(all, found, path, all.len());
        } else {
            let k = lemma_pass_finds(all, found, path, all.len());
            lemma_missing_shrinks(all, found, next, all.len(), k);
            lemma_closure_closed(all, next, path, (fuel - 1) as nat);
        }
    }
}

/// The processes of a bottle are closed under descent: every process of the
/// host whose parent belongs to the bottle belongs to it.
pub proof fn lemma_bottle_processes_closed(all: Seq<ProcModel>, path: Seq<char>)
    ensures
        closed(all, bottle_processes(all, path)),
{
    let direct = direct_matches(all, path, all.len());
    lemma_missing_bound(all, direct, all.len());
    lemma_closure_closed(all, direct, path, all.len());
}

} // verus!
