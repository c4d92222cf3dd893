//! The payloads the engine hands to the push layer: a welcome note, the
//! title, the column headers (detected, or a fixed fallback set), and one
//! data row per line. How they are framed on the wire is the transport's
//! business; the engine only fixes their content.

use crate::clock::now_rfc3339;
use crate::cmd::CmdOutput;
use vstd::prelude::*;
use vstd::string::StringExecFns;

verus! {

/// The greeting sent once per connection, stamped with the time it was made.
pub struct WelcomeMessage {
    pub message: String,
    pub timestamp: String,
}

/// The title control payload: the watched command line, for display.
pub struct SetTitle {
    pub command: String,
    pub center: String,
}

/// The header control payload: the column names to display.
pub struct SetHeaders {
    pub command: String,
    pub headers: Vec<String>,
}

/// One data row: a line index and the display values for it. The engine
/// carries the line text alone; synthetic display columns are for the
/// transport to add.
pub struct SetDataRow {
    pub command: String,
    pub index: usize,
    pub values: Vec<String>,
}

/// The fallback column set used when no header row was detected.
pub open spec fn fallback_headers() -> Seq<Seq<char>> {
    seq!["name"@, "age"@, "country"@]
}

/// The fixed greeting text.
pub fn welcome_message() -> (m: WelcomeMessage)
    ensures
        m.message@ == "Welcome to the WebSocket server!"@,
{
    WelcomeMessage {
        message: String::from_str("Welcome to the WebSocket server!"),
        timestamp: now_rfc3339(),
    }
}

/// The title payload for a command line.
pub fn title_message(cmdline: &String) -> (m: SetTitle)
    ensures
        m.command@ == "SetTitle"@,
        m.center@ == cmdline@,
{
    SetTitle { command: String::from_str("SetTitle"), center: cmdline.clone() }
}

/// The header payload: the detected header tokens when there are some, the
/// fixed fallback column set otherwise.
pub fn headers_message(detected: Option<Vec<String>>) -> (m: SetHeaders)
    ensures
        m.command@ == "SetHeaders"@,
        ({
            match detected {
                Option::Some(h) => m.headers.deep_view() == h.deep_view(),
                Option::None => m.headers.deep_view() == fallback_headers(),
            }
        }),
{
    match detected {
        Some(h) => SetHeaders { command: String::from_str("SetHeaders"), headers: h },
        None => {
            let mut cols: Vec<String> = Vec::new();
            cols.push(String::from_str("name"));
            cols.push(String::from_str("age"));
            cols.push(String::from_str("country"));
            proof {
                assert(cols.deep_view() =~= fallback_headers());
            }
            SetHeaders { command: String::from_str("SetHeaders"), headers: cols }
        },
    }
}

/// The data-row payload for one line.
pub fn data_row(index: usize, line: &String) -> (m: SetDataRow)
    ensures
        m.command@ == "SetDataRow"@,
        m.index == index,
        m.values.deep_view() == seq![line@],
{
    let mut values: Vec<String> = Vec::new();
    values.push(line.clone());
    proof {
        assert(values.deep_view() =~= seq![line@]);
    }
    SetDataRow { command: String::from_str("SetDataRow"), index, values }
}

/// Drains the snapshot once through its cursor, producing one data row per
/// remaining line, indexed from zero in reading order: the initial message
/// burst after a capture.
pub fn initial_rows(snap: &mut CmdOutput) -> (rows: Vec<SetDataRow>)
    ensures
        ({
            let pre = old(snap)@;
            let post = final(snap)@;
            &&& post.cmdline == pre.cmdline
            &&& post.cmdname == pre.cmdname
            &&& post.timestamp == pre.timestamp
            &&& post.lines == pre.lines
            &&& post.headers == pre.headers
            &&& pre.cursor <= pre.lines.len() ==> {
                &&& post.cursor == pre.lines.len()
                &&& rows@.len() == pre.lines.len() - pre.cursor
                &&& forall|k: int|
                    0 <= k < rows@.len() ==> {
                        &&& (#[trigger] rows@[k]).index == k
                        &&& rows@[k].values.deep_view() == seq![pre.lines[pre.cursor + k]]
                        &&& rows@[k].command@ == "SetDataRow"@
                    }
            }
            &&& pre.cursor > pre.lines.len() ==> post.cursor == pre.cursor && rows@.len() == 0
        }),
        old(snap).wf() ==> final(snap).wf(),
{
    let mut rows: Vec<SetDataRow> = Vec::new();
    loop
        invariant
            snap@.cmdline == old(snap)@.cmdline,
            snap@.cmdname == old(snap)@.cmdname,
            snap@.timestamp == old(snap)@.timestamp,
            snap@.lines == old(snap)@.lines,
            snap@.headers == old(snap)@.headers,
            old(snap)@.cursor <= old(snap)@.lines.len() ==> {
                &&& old(snap)@.cursor <= snap@.cursor <= snap@.lines.len()
                &&& rows@.len() == snap@.cursor - old(snap)@.cursor
                &&& forall|k: int|
                    0 <= k < rows@.len() ==> {
                        &&& (#[trigger] rows@[k]).index == k
                        &&& rows@[k].values.deep_view() == seq![
                            old(snap)@.lines[old(snap)@.cursor + k],
                        ]
                        &&& rows@[k].command@ == "SetDataRow"@
                    }
            },
            old(snap)@.cursor > old(snap)@.lines.len() ==> snap@.cursor == old(snap)@.cursor
                && rows@.len() == 0,
        ensures
            snap@.cmdline == old(snap)@.cmdline,
            snap@.cmdname == old(snap)@.cmdname,
            snap@.timestamp == old(snap)@.timestamp,
            snap@.lines == old(snap)@.lines,
            snap@.headers == old(snap)@.headers,
            old(snap)@.cursor <= old(snap)@.lines.len() ==> {
                &&& snap@.cursor == snap@.lines.len()
                &&& rows@.len() == old(snap)@.lines.len() - old(snap)@.cursor
                &&& forall|k: int|
                    0 <= k < rows@.len() ==> {
                        &&& (#[trigger] rows@[k]).index == k
                        &&& rows@[k].values.deep_view() == seq![
                            old(snap)@.lines[old(snap)@.cursor + k],
                        ]
                        &&& rows@[k].command@ == "SetDataRow"@
                    }
            },
            old(snap)@.cursor > old(snap)@.lines.len() ==> snap@.cursor == old(snap)@.cursor
                && rows@.len() == 0,
        decreases (if snap@.cursor <= snap@.lines.len() {
            snap@.lines.len() - snap@.cursor
        } else {
            0
        }),
    {
        let idx = rows.len();
        match snap.next() {
            Some(line) => {
                let row = data_row(idx, &line);
                rows.push(row);
            },
            None => {
                break ;
            },
        }
    }
    rows
}

/// One data row per changed index, in the given order, each carrying the
/// index and the line now at it: the per-cycle message burst after a diff.
pub fn changed_rows(snap: &CmdOutput, changed: &Vec<usize>) -> (rows: Vec<SetDataRow>)
    requires
        forall|k: int| 0 <= k < changed@.len() ==> #[trigger] changed@[k] < snap@.lines.len(),
    ensures
        rows@.len() == changed@.len(),
        forall|k: int|
            0 <= k < rows@.len() ==> {
                &&& (#[trigger] rows@[k]).index == changed@[k]
                &&& rows@[k].values.deep_view() == seq![snap@.lines[changed@[k] as int]]
                &&& rows@[k].command@ == "SetDataRow"@
            },
{
    let mut rows: Vec<SetDataRow> = Vec::new();
    let mut k: usize = 0;
    while k < changed.len()
        invariant
            k <= changed@.len(),
            rows@.len() == k,
            forall|j: int| 0 <= j < changed@.len() ==> #[trigger] changed@[j] < snap@.lines.len(),
            forall|j: int|
                0 <= j < k ==> {
                    &&& (#[trigger] rows@[j]).index == changed@[j]
                    &&& rows@[j].values.deep_view() == seq![snap@.lines[changed@[j] as int]]
                    &&& rows@[j].command@ == "SetDataRow"@
                },
        decreases changed@.len() - k,
    {
        let idx = changed[k];
        let row = data_row(idx, snap.line_at(idx));
        rows.push(row);
        k += 1;
    }
    rows
}

} // verus!
