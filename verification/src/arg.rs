use vstd::prelude::*;
use vstd::string::*;

verus! {

/// The places where one of the program's files may be: the one given on
/// the command line, the one under the working directory that was given
/// there, and the one under the project's own directories.
#[derive(Clone, Debug, Default, PartialEq, Eq)]
pub struct Candidates {
    pub given: Option<String>,
    pub in_directory: Option<String>,
    pub in_project: Option<String>,
}

/// Mathematical model of [`Candidates`].
pub struct CandidatesView {
    pub given: Option<Seq<char>>,
    pub in_directory: Option<Seq<char>>,
    pub in_project: Option<Seq<char>>,
}

impl View for Candidates {
    type V = CandidatesView;

    open spec fn view(&self) -> CandidatesView {
        CandidatesView {
            given: self.given.deep_view(),
            in_directory: self.in_directory.deep_view(),
            in_project: self.in_project.deep_view(),
        }
    }
}

impl CandidatesView {
    /// The place that was given, or else the one under the working
    /// directory, or else the one under the project's directories.
    pub open spec fn directory_first(self) -> Option<Seq<char>> {
        if self.given is Some {
            self.given
        } else if self.in_directory is Some {
            self.in_directory
        } else {
            self.in_project
        }
    }

    /// The place that was given, or else the one under the project's
    /// directories, or else the one under the working directory.
    pub open spec fn project_first(self) -> Option<Seq<char>> {
        if self.given is Some {
            self.given
        } else if self.in_project is Some {
            self.in_project
        } else {
            self.in_directory
        }
    }
}

impl Candidates {
    /// Picks a place, the working directory before the project's.
    pub fn directory_first(self) -> (place: Option<String>)
        ensures
            place.deep_view() == self@.directory_first(),
    {
        if self.given.is_some() {
            self.given
        } else if self.in_directory.is_some() {
            self.in_directory
        } else {
            self.in_project
        }
    }

    /// Picks a place, the project's directories before the working one.
    pub fn project_first(self) -> (place: Option<String>)
        ensures
            place.deep_view() == self@.project_first(),
    {
        if self.given.is_some() {
            self.given
        } else if self.in_project.is_some() {
            self.in_project
        } else {
            self.in_directory
        }
    }
}

/// What the program was started with.
#[derive(Clone, Debug, PartialEq, Eq)]
pub struct Args {
    /// Where downloads are kept, if anywhere.
    pub cache_dir: Option<String>,
    /// The script to run.
    pub config: String,
    /// The file of the record store.
    pub dbpath: String,
    /// Whether to report what would change without changing it.
    pub dry_run: bool,
    /// The function of the script to call.
    pub entry: String,
    /// The arguments to call it with.
    pub rargs: Vec<String>,
}

/// Mathematical model of [`Args`].
pub struct ArgsView {
    pub cache_dir: Option<Seq<char>>,
    pub config: Seq<char>,
    pub dbpath: Seq<char>,
    pub dry_run: bool,
    pub entry: Seq<char>,
    pub rargs: Seq<Seq<char>>,
}

impl DeepView for Args {
    type V = ArgsView;

    open spec fn deep_view(&self) -> ArgsView {
        self@
    }
}

impl View for Args {
    type V = ArgsView;

    open spec fn view(&self) -> ArgsView {
        ArgsView {
            cache_dir: self.cache_dir.deep_view(),
            config: self.config@,
            dbpath: self.dbpath@,
            dry_run: self.dry_run,
            entry: self.entry@,
            rargs: self.rargs.deep_view(),
        }
    }
}

/// The arguments that the candidates add up to. Downloads go to the
/// project's cache before the working directory's; the record store and
/// the script are looked for in the working directory first. Without a
/// place for the record store or for the script there are no arguments.
pub open spec fn resolved(
    cache_dir: CandidatesView,
    dbpath: CandidatesView,
    config: CandidatesView,
    dry_run: bool,
    entry: Seq<char>,
    rargs: Seq<Seq<char>>,
) -> Option<ArgsView> {
    match (dbpath.directory_first(), config.directory_first()) {
        (Some(dbpath), Some(config)) => Some(
            ArgsView { cache_dir: cache_dir.project_first(), config, dbpath, dry_run, entry, rargs },
        ),
        _ => None,
    }
}

impl Args {
    /// Settles where the program's files are.
    pub fn resolve(
        cache_dir: Candidates,
        dbpath: Candidates,
        config: Candidates,
        dry_run: bool,
        entry: String,
        rargs: Vec<String>,
    ) -> (args: Option<Args>)
        ensures
            args.deep_view() == resolved(
                cache_dir@,
                dbpath@,
                config@,
                dry_run,
                entry@,
                rargs.deep_view(),
            ),
    {
        let cache_dir = cache_dir.project_first();
        match (dbpath.directory_first(), config.directory_first()) {
            (Some(dbpath), Some(config)) => Some(
                Args { cache_dir, config, dbpath, dry_run, entry, rargs },
            ),
            _ => None,
        }
    }
}

/// The arguments of a call, each between double quotes, with a comma
/// and a blank between two of them.
pub open spec fn quoted(rargs: Seq<Seq<char>>) -> Seq<char>
    decreases rargs.len(),
{
    if rargs.len() == 0 {
        Seq::empty()
    } else if rargs.len() == 1 {
        "\""@ + rargs[0] + "\""@
    } else {
        quoted(rargs.drop_last()) + ", "@ + "\""@ + rargs.last() + "\""@
    }
}

/// The line of script that calls `entry` with `rargs`: on a line of its
/// own, the name, and the quoted arguments in round brackets.
pub open spec fn call_text(entry: Seq<char>, rargs: Seq<Seq<char>>) -> Seq<char> {
    "\n"@ + entry + "("@ + quoted(rargs) + ")\n"@
}

/// Writes the line of script that calls the entry point.
pub fn entry_call(entry: &str, rargs: &Vec<String>) -> (call: String)
    ensures
        call@ == call_text(entry@, rargs.deep_view()),
{
    let mut call = "\n".to_owned();
    call.append(entry);
    call.append("(");
    let ghost head = call@;
    let ghost all = rargs.deep_view();
    let mut i: usize = 0;
    while i < rargs.len()
        invariant
            i <= rargs.len(),
            all == rargs.deep_view(),
            call@ == head + quoted(all.take(i as int)),
        decreases rargs.len() - i,
    {
        proof {
            assert(all.take(i + 1).drop_last() =~= all.take(i as int));
            assert(all.take(i + 1).last() == rargs[i as int]@);
            if i == 0 {
                assert(all.take(1)[0] == rargs[0]@);
                assert(quoted(all.take(0)) =~= Seq::<char>::empty());
            }
        }
        let ghost before = call@;
        if i > 0 {
            call.append(", ");
        }
        call.append("\"");
        call.append(rargs[i].as_str());
        call.append("\"");
        proof {
            if i == 0 {
                assert(call@ =~= head + ("\""@ + rargs[0]@ + "\""@));
            } else {
                assert(call@ =~= head + (quoted(all.take(i as int)) + ", "@ + "\""@ + rargs[i as int]@
                    + "\""@));
            }
        }
        i = i + 1;
    }
    proof {
        assert(all.take(i as int) =~= all);
    }
    call.append(")\n");
    proof {
        assert(call@ =~= call_text(entry@, all));
    }
    call
}

} // verus!
