use vstd::prelude::*;
use vstd::string::StrSliceExecFns;

verus! {

/// Characters of `path` up to and including its last `/`; zero when it has none.
pub open spec fn dir_prefix_len(path: Seq<char>) -> nat
    decreases path.len(),
{
    if path.len() == 0 {
        0
    } else if path.last() == '/' {
        path.len()
    } else {
        dir_prefix_len(path.drop_last())
    }
}

/// The final component of `path`: what follows its last `/`.
pub open spec fn base_name_spec(path: Seq<char>) -> Seq<char> {
    path.subrange(dir_prefix_len(path) as int, path.len() as int)
}

/// `name` placed inside `dir`, with one `/` between them unless `dir` is
/// empty or already ends with one.
pub open spec fn join_spec(dir: Seq<char>, name: Seq<char>) -> Seq<char> {
    if dir.len() == 0 || dir.last() == '/' {
        dir + name
    } else {
        dir + seq!['/'] + name
    }
}

/// Where the payload cracked out of a file named `file_name` is written.
pub open spec fn output_path_spec(out_dir: Seq<char>, file_name: Seq<char>) -> Seq<char> {
    join_spec(out_dir, file_name + seq!['.', 'o', 'u', 't'])
}

/// The argument list of a seed detection on `candidate`.
pub open spec fn seed_args_spec(candidate: Seq<char>) -> Seq<Seq<char>> {
    seq![
        seq!['-', '-', 's', 'e', 'e', 'd'],
        seq!['-', 'a'],
        seq!['-', 'q'],
        seq!['-', 's', 'f'],
        candidate,
    ]
}

/// The argument list of a crack of `candidate` with `wordlist`, writing the
/// payload to `out_file`.
pub open spec fn crack_args_spec(wordlist: Seq<char>, candidate: Seq<char>, out_file: Seq<char>) -> Seq<Seq<char>> {
    seq![
        seq!['-', '-', 'c', 'r', 'a', 'c', 'k'],
        seq!['-', 'a'],
        seq!['-', 'f'],
        seq!['-', 'q'],
        seq!['-', 'w', 'l'],
        wordlist,
        seq!['-', 's', 'f'],
        candidate,
        seq!['-', 'x', 'f'],
        out_file,
    ]
}

/// The views of a list of strings.
pub open spec fn views(v: Seq<String>) -> Seq<Seq<char>> {
    v.map_values(|s: String| s@)
}

/// The final component of `path`: what follows its last `/`, or the whole
/// path when it has none.
pub fn base_name(path: &str) -> (r: String)
    ensures
        r@ == base_name_spec(path@),
{
    let n = path.unicode_len();
    let mut i: usize = n;
    assert(path@.take(n as int) =~= path@);
    while i > 0 && path.get_char(i - 1) != '/'
        invariant
            n == path@.len(),
            i <= n,
            dir_prefix_len(path@.take(i as int)) == dir_prefix_len(path@),
        decreases i,
    {
        assert(path@.take(i as int).drop_last() =~= path@.take(i - 1));
        i = i - 1;
    }
    proof {
        assert(path@.take(n as int) =~= path@);
        if i > 0 {
            assert(path@.take(i as int).last() == path@[i - 1]);
        }
    }
    path.substring_char(i, n).to_owned()
}

/// `name` placed inside `dir`.
pub fn join(dir: &str, name: &str) -> (r: String)
    ensures
        r@ == join_spec(dir@, name@),
{
    let n = dir.unicode_len();
    let mut r = dir.to_owned();
    if n > 0 && dir.get_char(n - 1) == '/' {
        r.append(name);
    } else if n == 0 {
        r.append(name);
    } else {
        proof { reveal_strlit("/"); }
        r.append("/");
        r.append(name);
    }
    r
}

/// Where the payload cracked out of the file at `candidate` is written:
/// its file name with `.out` appended, inside `out_dir`.
pub fn output_path(out_dir: &str, candidate: &str) -> (r: String)
    ensures
        r@ == output_path_spec(out_dir@, base_name_spec(candidate@)),
{
    let mut name = base_name(candidate);
    proof { reveal_strlit(".out"); }
    name.append(".out");
    join(out_dir, name.as_str())
}

/// The external tool's arguments for a seed detection on `candidate`.
pub fn seed_args(candidate: &str) -> (r: Vec<String>)
    ensures
        views(r@) == seed_args_spec(candidate@),
{
    proof {
        reveal_strlit("--seed");
        reveal_strlit("-a");
        reveal_strlit("-q");
        reveal_strlit("-sf");
    }
    let r = vec![
        "--seed".to_owned(),
        "-a".to_owned(),
        "-q".to_owned(),
        "-sf".to_owned(),
        candidate.to_owned(),
    ];
    assert(views(r@) =~~= seed_args_spec(candidate@));
    r
}

/// The external tool's arguments for cracking `candidate` with `wordlist`;
/// the payload goes to [`output_path`] of `out_dir` and `candidate`.
pub fn crack_args(wordlist: &str, candidate: &str, out_dir: &str) -> (r: Vec<String>)
    ensures
        views(r@) == crack_args_spec(
            wordlist@,
            candidate@,
            output_path_spec(out_dir@, base_name_spec(candidate@)),
        ),
{
    proof {
        reveal_strlit("--crack");
        reveal_strlit("-a");
        reveal_strlit("-f");
        reveal_strlit("-q");
        reveal_strlit("-wl");
        reveal_strlit("-sf");
        reveal_strlit("-xf");
    }
    let out_file = output_path(out_dir, candidate);
    let r = vec![
        "--crack".to_owned(),
        "-a".to_owned(),
        "-f".to_owned(),
        "-q".to_owned(),
        "-wl".to_owned(),
        wordlist.to_owned(),
        "-sf".to_owned(),
        candidate.to_owned(),
        "-xf".to_owned(),
        out_file,
    ];
    assert(views(r@) =~~= crack_args_spec(
        wordlist@,
        candidate@,
        output_path_spec(out_dir@, base_name_spec(candidate@)),
    ));
    r
}

} // verus!
