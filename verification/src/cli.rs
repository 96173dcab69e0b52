//! The command line: `--session CMD` and `--user NAME` (or `-u NAME`).
use vstd::prelude::*;

use crate::greeter::option_string_view;

verus! {

/// What the command line selects.
pub struct CommandLine {
    /// The user to log in as.
    pub user: String,
    /// The session command, when one was given.
    pub session: Option<String>,
}

/// The selection made by the arguments `args`, reading them in order from the
/// given user and session. `--session` takes the next argument as the session
/// command (none when it is the last argument); `--user` and `-u` take the next
/// argument as the user (kept as it was when it is the last argument); every
/// other argument is ignored.
pub open spec fn parse_from(args: Seq<Seq<char>>, user: Seq<char>, session: Option<Seq<char>>) -> (
    Seq<char>,
    Option<Seq<char>>,
)
    decreases args.len(),
{
    if args.len() == 0 {
        (user, session)
    } else if args[0] == "--session"@ {
        if args.len() >= 2 {
            parse_from(args.skip(2), user, Some(args[1]))
        } else {
            (user, None)
        }
    } else if args[0] == "--user"@ || args[0] == "-u"@ {
        if args.len() >= 2 {
            parse_from(args.skip(2), args[1], session)
        } else {
            (user, session)
        }
    } else {
        parse_from(args.skip(1), user, session)
    }
}

/// The flags, told apart by their characters.
proof fn lemma_flags_distinct()
    ensures
        "--session"@ != "--user"@,
        "--session"@ != "-u"@,
        "--user"@ != "-u"@,
{
    reveal_strlit("--session");
    reveal_strlit("--user");
    reveal_strlit("-u");
    assert("--session"@[2] != "--user"@[2]);
    assert("--session"@.len() != "-u"@.len());
    assert("--user"@.len() != "-u"@.len());
}

/// The command line read as a whole: no arguments keep the defaults;
/// `--user NAME` and `-u NAME` each consume exactly their value and set the
/// user; `--session CMD` consumes exactly its value and sets the session, and
/// a trailing `--session` clears it; a trailing `--user` or `-u` ends the
/// reading with nothing changed; any other argument is skipped alone.
pub proof fn lemma_parse_laws(
    rest: Seq<Seq<char>>,
    v: Seq<char>,
    a: Seq<char>,
    user: Seq<char>,
    session: Option<Seq<char>>,
)
    ensures
        parse_from(Seq::empty(), user, session) == (user, session),
        parse_from(seq!["--user"@, v] + rest, user, session) == parse_from(rest, v, session),
        parse_from(seq!["-u"@, v] + rest, user, session) == parse_from(rest, v, session),
        parse_from(seq!["-u"@] + rest, user, session) == parse_from(
            seq!["--user"@] + rest,
            user,
            session,
        ),
        parse_from(seq!["--session"@, v] + rest, user, session) == parse_from(
            rest,
            user,
            Some(v),
        ),
        parse_from(seq!["--session"@], user, session) == (user, None::<Seq<char>>),
        parse_from(seq!["--user"@], user, session) == (user, session),
        parse_from(seq!["-u"@], user, session) == (user, session),
        a != "--session"@ && a != "--user"@ && a != "-u"@ ==> parse_from(
            seq![a] + rest,
            user,
            session,
        ) == parse_from(rest, user, session),
{
    lemma_flags_distinct();
    assert((seq!["--user"@, v] + rest).skip(2) =~= rest);
    assert((seq!["-u"@, v] + rest).skip(2) =~= rest);
    assert((seq!["--session"@, v] + rest).skip(2) =~= rest);
    assert((seq![a] + rest).skip(1) =~= rest);
    assert((seq!["--user"@, v] + rest)[0] == "--user"@);
    assert((seq!["--user"@, v] + rest)[1] == v);
    assert((seq!["-u"@, v] + rest)[0] == "-u"@);
    assert((seq!["-u"@, v] + rest)[1] == v);
    assert((seq!["--session"@, v] + rest)[0] == "--session"@);
    assert((seq!["--session"@, v] + rest)[1] == v);
    assert((seq![a] + rest)[0] == a);
    let lu = seq!["-u"@] + rest;
    let lf = seq!["--user"@] + rest;
    assert(lu[0] == "-u"@);
    assert(lf[0] == "--user"@);
    assert(lu.len() == lf.len());
    if lu.len() >= 2 {
        assert(lu[1] == lf[1]);
        assert(lu.skip(2) =~= lf.skip(2));
    }
}

/// Reads the arguments that follow the program name; `default_user` is the
/// user when no `--user` or `-u` names one.
pub fn parse_args(args: &[String], default_user: String) -> (line: CommandLine)
    ensures
        (line.user@, option_string_view(line.session)) == parse_from(
            args.deep_view(),
            default_user@,
            None,
        ),
{
    let ghost all = args.deep_view();
    let mut user = default_user;
    let mut session: Option<String> = None;
    let session_flag = "--session".to_owned();
    let user_flag = "--user".to_owned();
    let short_user_flag = "-u".to_owned();
    let mut i: usize = 0;
    assert(all.skip(0) =~= all);
    while i < args.len()
        invariant
            i <= args@.len(),
            all == args.deep_view(),
            session_flag@ == "--session"@,
            user_flag@ == "--user"@,
            short_user_flag@ == "-u"@,
            parse_from(all, default_user@, None) == parse_from(
                all.skip(i as int),
                user@,
                option_string_view(session),
            ),
        decreases args@.len() - i,
    {
        let ghost rest = all.skip(i as int);
        assert(rest[0] == args@[i as int]@);
        let arg = &args[i];
        if *arg == session_flag {
            if i + 1 < args.len() {
                assert(rest[1] == args@[i + 1]@);
                assert(rest.skip(2) =~= all.skip(i + 2));
                session = Some(args[i + 1].clone());
                i = i + 2;
            } else {
                session = None;
                i = i + 1;
                assert(all.skip(i as int).len() == 0);
            }
        } else if *arg == user_flag || *arg == short_user_flag {
            if i + 1 < args.len() {
                assert(rest[1] == args@[i + 1]@);
                assert(rest.skip(2) =~= all.skip(i + 2));
                user = args[i + 1].clone();
                i = i + 2;
            } else {
                i = i + 1;
                assert(all.skip(i as int).len() == 0);
            }
        } else {
            assert(rest.skip(1) =~= all.skip(i + 1));
            i = i + 1;
        }
    }
    CommandLine { user, session }
}

} // verus!
