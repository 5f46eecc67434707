//! External programs to run: their command line, and how their start and
//! failure are reported.
use vstd::prelude::*;
use vstd::string::*;

use crate::failure::{newline, SauceError};

verus! {

/// Relies on `which::which`: whether an executable called `bin` is found
/// on the search path; when it is not, the lookup's own message. What it
/// finds depends on the machine, so nothing is promised of it.
#[verifier::external_body]
fn look_up(bin: &str) -> (r: Result<(), String>) {
    which::which(bin).map(|_| ()).map_err(|e| e.to_string())
}

/// The command line of `bin` with `args`: `$ bin arg1 arg2 ...`.
pub open spec fn command_line(bin: Seq<char>, args: Seq<Seq<char>>) -> Seq<char>
    decreases args.len(),
{
    if args.len() == 0 {
        "$ "@ + bin
    } else {
        command_line(bin, args.drop_last()) + " "@ + args.last()
    }
}

/// The views of a list of strings.
pub open spec fn strings_view(v: Seq<String>) -> Seq<Seq<char>> {
    v.map_values(|s: String| s@)
}

/// The message of a program that cannot be found.
pub open spec fn not_found_line(bin: Seq<char>) -> Seq<char> {
    "Could not find "@ + bin
}

/// An external program with its arguments, found on the search path.
pub struct Process {
    bin: String,
    args: Vec<String>,
    description: String,
}

impl Process {
    /// The program's name.
    pub closed spec fn bin_view(&self) -> Seq<char> {
        self.bin@
    }

    /// The program's arguments.
    pub closed spec fn args_view(&self) -> Seq<Seq<char>> {
        strings_view(self.args@)
    }

    /// The program's command line.
    pub closed spec fn description_view(&self) -> Seq<char> {
        self.description@
    }

    /// The program `bin` with `args` (none when absent), when `bin` is found
    /// on the search path; else a failure that says it could not be found,
    /// above the lookup's own message, as `from_lookup` states for the
    /// lookup's result.
    pub fn new(bin: &str, args: Option<Vec<String>>) -> (r: Result<Process, SauceError>)
        ensures
            exists|found: Result<(), String>| Process::found(bin@, args, found, r),
    {
        let found = look_up(bin);
        let ghost seen = found;
        let r = Process::from_lookup(bin, args, found);
        assert(Process::found(bin@, args, seen, r));
        r
    }

    /// What `from_lookup` returns for the lookup result `found`.
    pub open spec fn found(
        bin: Seq<char>,
        args: Option<Vec<String>>,
        found: Result<(), String>,
        r: Result<Process, SauceError>,
    ) -> bool {
        match found {
            Ok(()) => r is Ok && r->Ok_0.bin_view() == bin && r->Ok_0.args_view() == match args {
                Some(a) => strings_view(a@),
                None => Seq::<Seq<char>>::empty(),
            } && r->Ok_0.description_view() == command_line(bin, r->Ok_0.args_view()),
            Err(m) => r is Err && r->Err_0.text() == not_found_line(bin) + newline() + m@,
        }
    }

    /// The program `bin` with `args` once the lookup of `bin` gave `found`:
    /// the program and its command line when it was found, else a failure
    /// that says it could not be found, above the lookup's message.
    pub fn from_lookup(bin: &str, args: Option<Vec<String>>, found: Result<(), String>) -> (r:
        Result<Process, SauceError>)
        ensures
            Process::found(bin@, args, found, r),
    {
        let ghost given = args;
        match found {
            Err(e) => {
                let missing = SauceError::message(e.as_str());
                let r = missing.context(String::from_str("Could not find ").concat(bin).as_str());
                assert(r.text() == not_found_line(bin@) + newline() + e@);
                return Err(r);
            },
            Ok(()) => {},
        }
        let args = match args {
            Some(a) => a,
            None => Vec::new(),
        };
        let mut description = String::from_str("$ ").concat(bin);
        let mut i: usize = 0;
        while i < args.len()
            invariant
                i <= args@.len(),
                description@ == command_line(bin@, strings_view(args@.subrange(0, i as int))),
            decreases args@.len() - i,
        {
            proof {
                assert(strings_view(args@.subrange(0, i + 1)).drop_last() =~= strings_view(
                    args@.subrange(0, i as int),
                ));
            }
            description.append(" ");
            description.append(args[i].as_str());
            i = i + 1;
        }
        assert(args@.subrange(0, args@.len() as int) =~= args@);
        let r = Process { bin: String::from_str(bin), args, description };
        assert(r.description_view() == command_line(bin@, r.args_view()));
        assert(r.bin_view() == bin@);
        assert(r.args_view() == match given {
            Some(a) => strings_view(a@),
            None => Seq::<Seq<char>>::empty(),
        });
        Ok(r)
    }

    /// The program's name.
    pub fn bin(&self) -> (r: &str)
        ensures
            r@ == self.bin_view(),
    {
        self.bin.as_str()
    }

    /// The program's arguments.
    pub fn args(&self) -> (r: &Vec<String>)
        ensures
            strings_view(r@) == self.args_view(),
    {
        &self.args
    }

    /// The program's command line.
    pub fn description(&self) -> (r: &str)
        ensures
            r@ == self.description_view(),
    {
        self.description.as_str()
    }

    /// The line logged when the program starts: the prefix, then the
    /// command line.
    pub fn start_line(&self, prefix: &str) -> (r: String)
        ensures
            r@ == prefix@ + self.description_view(),
    {
        String::from_str(prefix).concat(self.description.as_str())
    }

    /// The failure of a run that ended with `status`.
    pub fn failure(&self, prefix: &str, status: &str) -> (r: SauceError)
        ensures
            r.text() == prefix@ + self.description_view() + " failed with status "@ + status@,
    {
        SauceError::message(
            String::from_str(prefix).concat(self.description.as_str()).concat(
                " failed with status ",
            ).concat(status).as_str(),
        )
    }
}

} // verus!
