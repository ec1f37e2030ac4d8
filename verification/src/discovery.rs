//! Finding profiles: the symlinks of a directory that point at a generation link.

use vstd::prelude::*;
use vstd::string::StringExecFns;
use crate::pattern::{check_pattern, is_match, pattern_compiles, pattern_found};
use crate::planner::PlanError;
use crate::text::texts;

verus! {

/// One entry of a profiles directory, as the caller read it.
#[derive(Debug)]
pub struct DirLink {
    /// Path of the entry itself.
    pub path: String,
    /// File name of what the entry points to; `None` if the entry is no
    /// symlink or could not be read.
    pub target_name: Option<String>,
}

/// Names of generation links: anything, a dash, digits, `-link`.
pub open spec fn generation_link_pattern() -> Seq<char> {
    "^(.*)-(\\d+)-link$"@
}

/// The entry is a profile: a symlink whose target is named like a generation link.
pub open spec fn is_profile(entry: DirLink) -> bool {
    match entry.target_name {
        Some(name) => pattern_found(generation_link_pattern(), name@),
        None => false,
    }
}

/// The paths of the profiles among `entries`, in the order of the entries.
pub open spec fn profiles_among(entries: Seq<DirLink>) -> Seq<Seq<char>>
    decreases entries.len(),
{
    if entries.len() == 0 {
        Seq::empty()
    } else if is_profile(entries.last()) {
        profiles_among(entries.drop_last()).push(entries.last().path@)
    } else {
        profiles_among(entries.drop_last())
    }
}

/// Picks the profiles out of the entries of one directory. The path returned
/// is that of the entry, not of its target.
///
/// Fails exactly if the engine refuses the pattern for generation links.
pub fn profiles_in_dir(entries: &Vec<DirLink>) -> (r: Result<Vec<String>, PlanError>)
    ensures
        !pattern_compiles(generation_link_pattern()) ==> r == Err::<Vec<String>, PlanError>(
            PlanError::BadPattern,
        ),
        pattern_compiles(generation_link_pattern()) ==> r is Ok && texts(r.unwrap()@)
            == profiles_among(entries@),
{
    if check_pattern("^(.*)-(\\d+)-link$").is_err() {
        return Err(PlanError::BadPattern);
    }
    let mut res: Vec<String> = Vec::new();
    let n: usize = entries.len();
    let mut i: usize = 0;
    assert(texts(res@) =~= profiles_among(entries@.take(0)));
    while i < n
        invariant
            n == entries@.len(),
            i <= n,
            pattern_compiles(generation_link_pattern()),
            texts(res@) == profiles_among(entries@.take(i as int)),
        decreases n - i,
    {
        let entry = &entries[i];
        let ghost before = texts(res@);
        assert(entries@.take(i + 1).drop_last() =~= entries@.take(i as int));
        assert(entries@.take(i + 1).last() == entries@[i as int]);
        match &entry.target_name {
            Some(name) => {
                match is_match("^(.*)-(\\d+)-link$", name.as_str()) {
                    Err(_) => {
                        return Err(PlanError::BadPattern);
                    },
                    Ok(true) => {
                        res.push(entry.path.clone());
                        assert(texts(res@) =~= before.push(entry.path@));
                    },
                    Ok(false) => {},
                }
            },
            None => {},
        }
        i = i + 1;
    }
    assert(entries@.take(i as int) =~= entries@);
    Ok(res)
}

/// Whether the profiles of the account `uid` are scanned when all profiles
/// are cleaned: the superuser, and the first hundred regular accounts, which
/// start at 501 on macOS and at 1000 elsewhere.
pub open spec fn account_in_scope(uid: u32, macos: bool) -> bool {
    uid == 0 || (if macos {
        501 <= uid < 601
    } else {
        1000 <= uid < 1100
    })
}

/// Decides whether an account's profiles are scanned.
pub fn scans_account(uid: u32, macos: bool) -> (b: bool)
    ensures
        b == account_in_scope(uid, macos),
{
    let uid_min: u32 = if macos {
        501
    } else {
        1000
    };
    let uid_max: u32 = uid_min + 100;
    uid >= uid_min && uid < uid_max || uid == 0
}

/// A local account, as the system lists it.
#[derive(Debug)]
pub struct Account {
    pub uid: u32,
    pub home: String,
}

/// The directory of the system-wide profiles.
pub open spec fn profiles_root() -> Seq<char> {
    "/nix/var/nix/profiles"@
}

/// The directory of the profiles that an account keeps under its home.
pub open spec fn state_dir_of(home: Seq<char>) -> Seq<char> {
    home + "/.local/state/nix/profiles"@
}

/// The directory of the system profiles of the user called `name`.
pub open spec fn per_user_dir_of(name: Seq<char>) -> Seq<char> {
    "/nix/var/nix/profiles/per-user/"@ + name
}

/// The state directories of the accounts in scope, in the order of the accounts.
pub open spec fn account_directories(accounts: Seq<Account>, macos: bool) -> Seq<Seq<char>>
    decreases accounts.len(),
{
    if accounts.len() == 0 {
        Seq::empty()
    } else if account_in_scope(accounts.last().uid, macos) {
        account_directories(accounts.drop_last(), macos).push(state_dir_of(accounts.last().home@))
    } else {
        account_directories(accounts.drop_last(), macos)
    }
}

fn state_dir(home: &str) -> (d: String)
    ensures
        d@ == state_dir_of(home@),
{
    let mut d = home.to_owned();
    d.append("/.local/state/nix/profiles");
    d
}

/// The directories scanned when the invoking user's profiles are cleaned:
/// the state directory under `home`, then the user's system profiles.
pub fn user_directories(home: &str, user_name: &str) -> (dirs: Vec<String>)
    ensures
        texts(dirs@) == seq![state_dir_of(home@), per_user_dir_of(user_name@)],
{
    let mut dirs: Vec<String> = Vec::new();
    dirs.push(state_dir(home));
    let mut per_user = "/nix/var/nix/profiles/per-user/".to_owned();
    per_user.append(user_name);
    dirs.push(per_user);
    assert(texts(dirs@) =~= seq![state_dir_of(home@), per_user_dir_of(user_name@)]);
    dirs
}

/// The directories scanned when all profiles are cleaned: the system-wide
/// profiles, every directory under the per-user profiles as the caller
/// listed them, and the state directory of every account in scope.
pub fn all_directories(per_user: &Vec<String>, accounts: &Vec<Account>, macos: bool) -> (dirs: Vec<
    String,
>)
    ensures
        texts(dirs@) == seq![profiles_root()] + texts(per_user@) + account_directories(
            accounts@,
            macos,
        ),
{
    let mut dirs: Vec<String> = Vec::new();
    dirs.push("/nix/var/nix/profiles".to_owned());
    let n: usize = per_user.len();
    let mut i: usize = 0;
    assert(texts(dirs@) =~= seq![profiles_root()] + texts(per_user@).take(0));
    while i < n
        invariant
            n == per_user@.len(),
            i <= n,
            texts(dirs@) == seq![profiles_root()] + texts(per_user@).take(i as int),
        decreases n - i,
    {
        let ghost before = texts(dirs@);
        dirs.push(per_user[i].clone());
        assert(texts(dirs@) =~= before.push(per_user@[i as int]@));
        assert(texts(per_user@).take(i + 1) =~= texts(per_user@).take(i as int).push(
            per_user@[i as int]@,
        ));
        assert(texts(dirs@) =~= seq![profiles_root()] + texts(per_user@).take(i + 1));
        i = i + 1;
    }
    assert(texts(per_user@).take(n as int) =~= texts(per_user@));
    let ghost head = seq![profiles_root()] + texts(per_user@);
    let m: usize = accounts.len();
    let mut j: usize = 0;
    assert(texts(dirs@) =~= head + account_directories(accounts@.take(0), macos));
    while j < m
        invariant
            m == accounts@.len(),
            j <= m,
            head == seq![profiles_root()] + texts(per_user@),
            texts(dirs@) == head + account_directories(accounts@.take(j as int), macos),
        decreases m - j,
    {
        assert(accounts@.take(j + 1).drop_last() =~= accounts@.take(j as int));
        assert(accounts@.take(j + 1).last() == accounts@[j as int]);
        if scans_account(accounts[j].uid, macos) {
            let ghost before = texts(dirs@);
            dirs.push(state_dir(accounts[j].home.as_str()));
            assert(texts(dirs@) =~= before.push(state_dir_of(accounts@[j as int].home@)));
            assert(texts(dirs@) =~= head + account_directories(accounts@.take(j + 1), macos));
        }
        j = j + 1;
    }
    assert(accounts@.take(m as int) =~= accounts@);
    dirs
}

} // verus!
