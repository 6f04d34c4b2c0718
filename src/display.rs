//! Texts derived from paths and prefixes.
use vstd::prelude::*;

verus! {

pub open spec fn is_prefix(p: Seq<char>, s: Seq<char>) -> bool {
    p.len() <= s.len() && s.take(p.len() as int) == p
}

/// Whether `s` begins with `p`.
pub fn starts_with(s: &str, p: &str) -> (r: bool)
    ensures
        r == is_prefix(p@, s@),
{
    let ls = s.unicode_len();
    let lp = p.unicode_len();
    if lp > ls {
        return false;
    }
    let mut i: usize = 0;
    while i < lp
        invariant
            i <= lp <= ls,
            ls == s@.len(),
            lp == p@.len(),
            s@.take(i as int) == p@.take(i as int),
        decreases lp - i,
    {
        if s.get_char(i) != p.get_char(i) {
            assert(s@.take(lp as int)[i as int] != p@[i as int]);
            return false;
        }
        assert(s@.take(i + 1) =~= s@.take(i as int).push(s@[i as int]));
        assert(p@.take(i + 1) =~= p@.take(i as int).push(p@[i as int]));
        i = i + 1;
    }
    assert(p@.take(lp as int) =~= p@);
    true
}

/// A repository path as shown in the header: the home directory as `~`.
pub open spec fn display_repository(repository: Seq<char>, home_dir: Option<Seq<char>>) -> Seq<char> {
    match home_dir {
        None => repository,
        Some(h) => if repository == h {
            "~"@
        } else if is_prefix(h + "/"@, repository) {
            "~/"@ + repository.skip(h.len() + 1int)
        } else {
            repository
        },
    }
}

/// The repository path with the home directory written as `~`.
pub fn format_repository_for_display(repository: &str, home_dir: Option<&str>) -> (r: String)
    ensures
        r@ == display_repository(repository@, crate::jj_command::opt_str_view(home_dir)),
{
    let home = match home_dir {
        None => {
            return String::from_str(repository);
        },
        Some(h) => h,
    };
    let mut prefix = String::from_str(home);
    prefix.append("/");
    if starts_with(repository, home) && repository.unicode_len() == home.unicode_len() {
        assert(repository@ =~= home@);
        proof {
            reveal_strlit("~");
        }
        return String::from_str("~");
    }
    if starts_with(repository, prefix.as_str()) {
        let from = prefix.as_str().unicode_len();
        let rest = repository.substring_char(from, repository.unicode_len());
        let mut r = String::from_str("~/");
        r.append(rest);
        proof {
            reveal_strlit("/");
            assert(repository@ != home@);
        }
        assert(rest@ =~= repository@.skip(home@.len() + 1int));
        return r;
    }
    proof {
        if repository@ == home@ {
            assert(repository@.take(home@.len() as int) =~= home@);
        }
    }
    String::from_str(repository)
}

} // verus!
