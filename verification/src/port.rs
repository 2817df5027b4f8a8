//! Freeing a TCP port: the command that finds the processes listening on it,
//! reading their ids from that command's output, and the command that ends
//! each of them.
use vstd::prelude::*;
use vstd::string::*;
use vstd::utf8::{decode_utf8, valid_utf8};
use crate::shell::ShellCommand;
use crate::text::{
    decimal, decimal_string, is_digit, lemma_decimal_digits, lemma_parse_decimal_round_trip,
    line_scan, lines, lossy_text, lossy_utf8, parse_u32, parsed_u32, split_lines,
    split_whitespace, strip_cr, words,
};

verus! {

/// The operating system the tools run on, as far as the port commands
/// differ.
#[derive(Clone, Copy, Debug, PartialEq, Eq, Structural)]
pub enum Platform {
    Windows,
    Linux,
    MacOs,
    Other,
}

/// Whether the platform has `lsof` and `kill`.
pub open spec fn is_unix(platform: Platform) -> bool {
    platform is Linux || platform is MacOs
}

/// The shell command that lists the processes on `port`: on Windows
/// `cmd /C "netstat -ano | findstr :<port>"`, on Linux and macOS
/// `sh -c "lsof -t -i:<port>"`; there is none elsewhere.
pub fn port_query(platform: Platform, port: u16) -> (r: Option<ShellCommand>)
    ensures
        r is None <==> platform is Other,
        platform is Windows ==> (r matches Some(c) && c.program@ == "cmd"@ && c.arg_texts()
            == seq!["/C"@, "netstat -ano | findstr :"@ + decimal(port as nat)] && c.current_dir
            is None),
        is_unix(platform) ==> (r matches Some(c) && c.program@ == "sh"@ && c.arg_texts() == seq![
            "-c"@,
            "lsof -t -i:"@ + decimal(port as nat),
        ] && c.current_dir is None),
{
    let digits = decimal_string(port as u64);
    match platform {
        Platform::Windows => {
            let mut query = "netstat -ano | findstr :".to_owned();
            query.append(digits.as_str());
            let mut args: Vec<String> = Vec::new();
            args.push("/C".to_owned());
            args.push(query);
            assert(args.deep_view() =~= seq!["/C"@, "netstat -ano | findstr :"@ + decimal(port as nat)]);
            Some(ShellCommand { program: "cmd".to_owned(), args, current_dir: None })
        },
        Platform::Linux | Platform::MacOs => {
            let mut query = "lsof -t -i:".to_owned();
            query.append(digits.as_str());
            let mut args: Vec<String> = Vec::new();
            args.push("-c".to_owned());
            args.push(query);
            assert(args.deep_view() =~= seq!["-c"@, "lsof -t -i:"@ + decimal(port as nat)]);
            Some(ShellCommand { program: "sh".to_owned(), args, current_dir: None })
        },
        Platform::Other => None,
    }
}

/// The process id that one line of the query's output names: on Windows the
/// fifth column of a `netstat` row, on Linux and macOS the whole line that
/// `lsof -t` prints; `None` where that text is not a `u32`.
pub open spec fn line_pid(platform: Platform, line: Seq<char>) -> Option<u32> {
    if platform is Windows {
        let parts = words(line);
        if parts.len() >= 5 {
            parsed_u32(parts[4])
        } else {
            None
        }
    } else if is_unix(platform) {
        parsed_u32(line)
    } else {
        None
    }
}

/// The values present in `found`, in order.
pub open spec fn present(found: Seq<Option<u32>>) -> Seq<u32>
    decreases found.len(),
{
    if found.len() == 0 {
        seq![]
    } else {
        let rest = present(found.drop_last());
        match found.last() {
            Some(pid) => rest.push(pid),
            None => rest,
        }
    }
}

/// The process ids that the query's output names, line by line, in order.
pub open spec fn pids_in(platform: Platform, output: Seq<char>) -> Seq<u32> {
    present(lines(output).map_values(|line: Seq<char>| line_pid(platform, line)))
}

/// The process id on one line of the query's output.
pub fn pid_on_line(platform: Platform, line: &str) -> (r: Option<u32>)
    ensures
        r == line_pid(platform, line@),
{
    match platform {
        Platform::Windows => {
            let parts = split_whitespace(line);
            if parts.len() >= 5 {
                assert(parts.deep_view()[4] == parts@[4]@);
                parse_u32(parts[4].as_str())
            } else {
                None
            }
        },
        Platform::Linux | Platform::MacOs => parse_u32(line),
        Platform::Other => None,
    }
}

/// The process ids that the query's output text names.
pub fn pids_in_text(platform: Platform, output: &str) -> (r: Vec<u32>)
    ensures
        r@ == pids_in(platform, output@),
{
    let all = split_lines(output);
    let ghost found = all.deep_view().map_values(|line: Seq<char>| line_pid(platform, line));
    let n = all.len();
    let mut out: Vec<u32> = Vec::new();
    let mut i: usize = 0;
    while i < n
        invariant
            n == all@.len(),
            found.len() == n,
            found == all.deep_view().map_values(|line: Seq<char>| line_pid(platform, line)),
            i <= n,
            out@ == present(found.take(i as int)),
        decreases n - i,
    {
        assert(all.deep_view()[i as int] == all@[i as int]@);
        let pid = pid_on_line(platform, all[i].as_str());
        assert(found.take(i + 1).drop_last() =~= found.take(i as int));
        assert(found.take(i + 1).last() == pid);
        match pid {
            Some(p) => out.push(p),
            None => {},
        }
        i += 1;
    }
    assert(found.take(n as int) =~= found);
    out
}

/// The process ids that the query's raw output names, once its bytes are read
/// as text the way `String::from_utf8_lossy` reads them.
pub fn pids_in_output(platform: Platform, stdout: &[u8]) -> (r: Vec<u32>)
    ensures
        r@ == pids_in(platform, lossy_utf8(stdout@)),
        valid_utf8(stdout@) ==> r@ == pids_in(platform, decode_utf8(stdout@)),
{
    let text = lossy_text(stdout);
    pids_in_text(platform, text.as_str())
}

/// The command that ends process `pid`: `taskkill /F /PID <pid>` on Windows,
/// `kill -9 <pid>` on Linux and macOS, none elsewhere.
pub fn kill_command(platform: Platform, pid: u32) -> (r: Option<ShellCommand>)
    ensures
        r is None <==> platform is Other,
        platform is Windows ==> (r matches Some(c) && c.program@ == "taskkill"@ && c.arg_texts()
            == seq!["/F"@, "/PID"@, decimal(pid as nat)] && c.current_dir is None),
        is_unix(platform) ==> (r matches Some(c) && c.program@ == "kill"@ && c.arg_texts()
            == seq!["-9"@, decimal(pid as nat)] && c.current_dir is None),
{
    let digits = decimal_string(pid as u64);
    match platform {
        Platform::Windows => {
            let mut args: Vec<String> = Vec::new();
            args.push("/F".to_owned());
            args.push("/PID".to_owned());
            args.push(digits);
            assert(args.deep_view() =~= seq!["/F"@, "/PID"@, decimal(pid as nat)]);
            Some(ShellCommand { program: "taskkill".to_owned(), args, current_dir: None })
        },
        Platform::Linux | Platform::MacOs => {
            let mut args: Vec<String> = Vec::new();
            args.push("-9".to_owned());
            args.push(digits);
            assert(args.deep_view() =~= seq!["-9"@, decimal(pid as nat)]);
            Some(ShellCommand { program: "kill".to_owned(), args, current_dir: None })
        },
        Platform::Other => None,
    }
}

// ---------------------------------------------------------------------------
// Laws
// ---------------------------------------------------------------------------

/// The output `lsof -t` gives for these processes: each id in decimal on a
/// line of its own.
pub open spec fn pid_listing(pids: Seq<u32>) -> Seq<char>
    decreases pids.len(),
{
    if pids.len() == 0 {
        seq![]
    } else {
        pid_listing(pids.drop_last()) + decimal(pids.last() as nat) + seq!['\n']
    }
}

/// Reading text without a line break adds it to the line being read.
proof fn lemma_line_scan_append(a: Seq<char>, w: Seq<char>)
    requires
        !w.contains('\n'),
    ensures
        line_scan(a + w) == (line_scan(a).0, line_scan(a).1 + w),
    decreases w.len(),
{
    if w.len() == 0 {
        assert(a + w =~= a);
        assert(line_scan(a).1 + w =~= line_scan(a).1);
    } else {
        let v = w.drop_last();
        assert(!v.contains('\n')) by {
            if v.contains('\n') {
                let k = choose|k: int| 0 <= k < v.len() && v[k] == '\n';
                assert(w[k] == '\n');
            }
        }
        lemma_line_scan_append(a, v);
        assert((a + w).drop_last() =~= a + v);
        assert(w.last() != '\n') by {
            assert(w[w.len() - 1] == w.last());
        }
        assert(line_scan(a).1 + v.push(w.last()) =~= line_scan(a).1 + w);
        assert(w =~= v.push(w.last()));
    }
}

/// The lines of a listing are the decimal ids, and nothing is left over.
proof fn lemma_listing_lines(pids: Seq<u32>)
    ensures
        line_scan(pid_listing(pids)).0 == pids.map_values(|p: u32| decimal(p as nat)),
        line_scan(pid_listing(pids)).1 == Seq::<char>::empty(),
    decreases pids.len(),
{
    if pids.len() == 0 {
        assert(pids.map_values(|p: u32| decimal(p as nat)) =~= Seq::<Seq<char>>::empty());
    } else {
        let rest = pids.drop_last();
        let p = pids.last();
        lemma_listing_lines(rest);
        let a = pid_listing(rest);
        let w = decimal(p as nat);
        lemma_decimal_digits(p as nat);
        assert(!w.contains('\n')) by {
            if w.contains('\n') {
                let k = choose|k: int| 0 <= k < w.len() && w[k] == '\n';
                assert(is_digit(w[k]));
            }
        }
        lemma_line_scan_append(a, w);
        assert(line_scan(a).1 + w =~= w);
        let full = a + w + seq!['\n'];
        assert(full.drop_last() =~= a + w);
        assert(full.last() == '\n');
        assert(is_digit(w[w.len() - 1]));
        assert(strip_cr(w) == w);
        assert(pids.map_values(|p: u32| decimal(p as nat)) =~= rest.map_values(
            |p: u32| decimal(p as nat),
        ).push(w));
    }
}

/// Every value of a sequence of present values is present.
proof fn lemma_present_all(pids: Seq<u32>)
    ensures
        present(pids.map_values(|p: u32| Some(p))) == pids,
    decreases pids.len(),
{
    if pids.len() > 0 {
        lemma_present_all(pids.drop_last());
        assert(pids.map_values(|p: u32| Some(p)).drop_last() =~= pids.drop_last().map_values(
            |p: u32| Some(p),
        ));
        assert(pids.drop_last().push(pids.last()) =~= pids);
    } else {
        assert(pids.map_values(|p: u32| Some(p)) =~= Seq::<Option<u32>>::empty());
    }
}

/// On Linux and macOS, reading the ids back from the listing of some
/// processes gives those processes, in order.
pub proof fn lemma_lsof_listing_round_trip(platform: Platform, pids: Seq<u32>)
    requires
        is_unix(platform),
    ensures
        pids_in(platform, pid_listing(pids)) == pids,
{
    lemma_listing_lines(pids);
    let ls = lines(pid_listing(pids));
    assert(ls == pids.map_values(|p: u32| decimal(p as nat)));
    let found = ls.map_values(|line: Seq<char>| line_pid(platform, line));
    assert forall|i: int| 0 <= i < found.len() implies found[i] == Some(pids[i]) by {
        lemma_parse_decimal_round_trip(pids[i]);
    }
    assert(found =~= pids.map_values(|p: u32| Some(p)));
    lemma_present_all(pids);
}

} // verus!
