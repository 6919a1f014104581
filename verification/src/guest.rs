//! Container user resolution.
//!
//! A user specification such as `1000`, `1000:50`, `www-data` or
//! `alice:staff` resolves to a numeric uid and gid against the container's
//! own passwd and group files, matching the behaviour of the common
//! container engines: the empty specification is root, a numeric uid works
//! without a passwd file, a name must be found in it, and an explicit
//! group overrides the passwd's primary group.  In every file the first
//! matching entry decides.  The file contents arrive as plain text;
//! reading them from the container's disk is the caller's business.

use vstd::prelude::*;
use vstd::string::*;

use crate::errors::{BoxliteError, BoxliteResult};
use crate::strutil::{
    find_char, parse_u32, skip_chars, spec_parse_u32_ok, spec_parse_u32_value, spec_split,
    split_char, str_eq, take_chars,
};

verus! {

/// The lines of a file.
pub open spec fn spec_lines(content: Seq<char>) -> Seq<Seq<char>> {
    spec_split(content, '\n')
}

/// The colon-separated fields of one line.
pub open spec fn spec_fields(line: Seq<char>) -> Seq<Seq<char>> {
    spec_split(line, ':')
}

/// The line is a passwd entry for `name`: at least four fields, the first
/// being the name.
pub open spec fn spec_passwd_entry_for(line: Seq<char>, name: Seq<char>) -> bool {
    spec_fields(line).len() >= 4 && spec_fields(line)[0] == name
}

/// The line is a passwd entry whose uid field denotes `uid`.
pub open spec fn spec_passwd_entry_for_uid(line: Seq<char>, uid: int) -> bool {
    spec_fields(line).len() >= 4 && spec_parse_u32_ok(spec_fields(line)[2])
        && spec_parse_u32_value(spec_fields(line)[2]) == uid
}

/// The line is a group entry for `name`: at least three fields, the first
/// being the name.
pub open spec fn spec_group_entry_for(line: Seq<char>, name: Seq<char>) -> bool {
    spec_fields(line).len() >= 3 && spec_fields(line)[0] == name
}

/// `i` is the first passwd entry for `name`.
pub open spec fn spec_first_user_at(content: Seq<char>, name: Seq<char>, i: int) -> bool {
    0 <= i < spec_lines(content).len() && spec_passwd_entry_for(spec_lines(content)[i], name) && (
    forall|j: int| 0 <= j < i ==> !spec_passwd_entry_for(#[trigger] spec_lines(content)[j], name))
}

/// Some passwd entry carries `name`.
pub open spec fn spec_user_entry_exists(content: Seq<char>, name: Seq<char>) -> bool {
    exists|i: int| spec_first_user_at(content, name, i)
}

/// The index of the first passwd entry for `name`.
pub open spec fn spec_user_entry(content: Seq<char>, name: Seq<char>) -> int {
    choose|i: int| spec_first_user_at(content, name, i)
}

/// The lookup of `name` succeeds: a first entry exists and its uid and
/// gid fields parse.
pub open spec fn spec_user_lookup_ok(content: Seq<char>, name: Seq<char>) -> bool {
    spec_user_entry_exists(content, name) && spec_parse_u32_ok(
        spec_fields(spec_lines(content)[spec_user_entry(content, name)])[2],
    ) && spec_parse_u32_ok(spec_fields(spec_lines(content)[spec_user_entry(content, name)])[3])
}

/// The uid the lookup of `name` yields.
pub open spec fn spec_user_uid(content: Seq<char>, name: Seq<char>) -> int {
    spec_parse_u32_value(spec_fields(spec_lines(content)[spec_user_entry(content, name)])[2])
}

/// The gid the lookup of `name` yields.
pub open spec fn spec_user_gid(content: Seq<char>, name: Seq<char>) -> int {
    spec_parse_u32_value(spec_fields(spec_lines(content)[spec_user_entry(content, name)])[3])
}

/// `i` is the first passwd entry denoting `uid`.
pub open spec fn spec_first_uid_at(content: Seq<char>, uid: int, i: int) -> bool {
    0 <= i < spec_lines(content).len() && spec_passwd_entry_for_uid(spec_lines(content)[i], uid)
        && (forall|j: int|
        0 <= j < i ==> !spec_passwd_entry_for_uid(#[trigger] spec_lines(content)[j], uid))
}

/// The primary-gid lookup of a numeric uid succeeds: a first entry for
/// the uid exists and its gid field parses.
pub open spec fn spec_primary_gid_ok(content: Seq<char>, uid: int) -> bool {
    (exists|i: int| spec_first_uid_at(content, uid, i)) && spec_parse_u32_ok(
        spec_fields(spec_lines(content)[choose|i: int| spec_first_uid_at(content, uid, i)])[3],
    )
}

/// The primary gid of a numeric uid.
pub open spec fn spec_primary_gid(content: Seq<char>, uid: int) -> int {
    spec_parse_u32_value(
        spec_fields(spec_lines(content)[choose|i: int| spec_first_uid_at(content, uid, i)])[3],
    )
}

/// The primary gid of a numeric uid, or zero when the lookup fails: the
/// fallback numeric users get.
pub open spec fn spec_primary_gid_or_zero(content: Option<String>, uid: int) -> int {
    match content {
        Some(c) => if spec_primary_gid_ok(c@, uid) {
            spec_primary_gid(c@, uid)
        } else {
            0
        },
        None => 0,
    }
}

/// `i` is the first group entry for `name`.
pub open spec fn spec_first_group_at(content: Seq<char>, name: Seq<char>, i: int) -> bool {
    0 <= i < spec_lines(content).len() && spec_group_entry_for(spec_lines(content)[i], name) && (
    forall|j: int| 0 <= j < i ==> !spec_group_entry_for(#[trigger] spec_lines(content)[j], name))
}

/// The lookup of a group name succeeds: a first entry exists and its gid
/// field parses.
pub open spec fn spec_group_lookup_ok(content: Seq<char>, name: Seq<char>) -> bool {
    (exists|i: int| spec_first_group_at(content, name, i)) && spec_parse_u32_ok(
        spec_fields(spec_lines(content)[choose|i: int| spec_first_group_at(content, name, i)])[2],
    )
}

/// The gid the lookup of a group name yields.
pub open spec fn spec_group_gid(content: Seq<char>, name: Seq<char>) -> int {
    spec_parse_u32_value(
        spec_fields(spec_lines(content)[choose|i: int| spec_first_group_at(content, name, i)])[2],
    )
}

/// A first index is unique.
proof fn lemma_first_user_unique(content: Seq<char>, name: Seq<char>, i: int)
    requires
        spec_first_user_at(content, name, i),
    ensures
        spec_user_entry_exists(content, name),
        spec_user_entry(content, name) == i,
{
    let c = spec_user_entry(content, name);
    assert(spec_first_user_at(content, name, c));
    if c < i {
        assert(!spec_passwd_entry_for(spec_lines(content)[c], name));
    }
    if c > i {
        assert(!spec_passwd_entry_for(spec_lines(content)[i], name));
    }
}

proof fn lemma_first_uid_unique(content: Seq<char>, uid: int, i: int)
    requires
        spec_first_uid_at(content, uid, i),
    ensures
        exists|k: int| spec_first_uid_at(content, uid, k),
        (choose|k: int| spec_first_uid_at(content, uid, k)) == i,
{
    let c = choose|k: int| spec_first_uid_at(content, uid, k);
    assert(spec_first_uid_at(content, uid, c));
    if c < i {
        assert(!spec_passwd_entry_for_uid(spec_lines(content)[c], uid));
    }
    if c > i {
        assert(!spec_passwd_entry_for_uid(spec_lines(content)[i], uid));
    }
}

proof fn lemma_first_group_unique(content: Seq<char>, name: Seq<char>, i: int)
    requires
        spec_first_group_at(content, name, i),
    ensures
        exists|k: int| spec_first_group_at(content, name, k),
        (choose|k: int| spec_first_group_at(content, name, k)) == i,
{
    let c = choose|k: int| spec_first_group_at(content, name, k);
    assert(spec_first_group_at(content, name, c));
    if c < i {
        assert(!spec_group_entry_for(spec_lines(content)[c], name));
    }
    if c > i {
        assert(!spec_group_entry_for(spec_lines(content)[i], name));
    }
}

/// Look `name` up in passwd content.
///
/// Succeeds exactly when some entry carries the name and the first such
/// entry's uid and gid fields parse; the result is that entry's ids.
/// Malformed lines are skipped.
pub fn find_user_in_passwd(content: &str, name: &str) -> (r: BoxliteResult<(u32, u32)>)
    ensures
        r is Ok <==> spec_user_lookup_ok(content@, name@),
        r matches Ok(ids) ==> ids.0 == spec_user_uid(content@, name@) && ids.1 == spec_user_gid(
            content@,
            name@,
        ),
        r matches Err(e) ==> e is Internal,
{
    let lines = split_char(content, '\n');
    let n = lines.len();
    let mut k: usize = 0;
    while k < n
        invariant
            k <= n,
            n == lines@.len(),
            lines.deep_view() == spec_lines(content@),
            forall|j: int|
                0 <= j < k ==> !spec_passwd_entry_for(#[trigger] spec_lines(content@)[j], name@),
        decreases n - k,
    {
        let fields = split_char(lines[k].as_str(), ':');
        proof {
            assert(lines.deep_view()[k as int] == lines@[k as int]@);
            assert(fields.deep_view() == spec_fields(spec_lines(content@)[k as int]));
        }
        if fields.len() >= 4 && str_eq(fields[0].as_str(), name) {
            proof {
                assert(fields.deep_view()[0] == name@);
                assert(spec_passwd_entry_for(spec_lines(content@)[k as int], name@));
                lemma_first_user_unique(content@, name@, k as int);
                assert(fields.deep_view()[2] == fields@[2]@);
                assert(fields.deep_view()[3] == fields@[3]@);
            }
            let uid = match parse_u32(fields[2].as_str()) {
                Some(v) => v,
                None => {
                    return Err(
                        BoxliteError::Internal(
                            String::from_str("invalid uid for user ").concat(name).concat(
                                " in passwd",
                            ),
                        ),
                    );
                },
            };
            let gid = match parse_u32(fields[3].as_str()) {
                Some(v) => v,
                None => {
                    return Err(
                        BoxliteError::Internal(
                            String::from_str("invalid gid for user ").concat(name).concat(
                                " in passwd",
                            ),
                        ),
                    );
                },
            };
            return Ok((uid, gid));
        }
        proof {
            assert(!spec_passwd_entry_for(spec_lines(content@)[k as int], name@));
        }
        k += 1;
    }
    proof {
        assert(!spec_user_entry_exists(content@, name@)) by {
            if spec_user_entry_exists(content@, name@) {
                let i = choose|i: int| spec_first_user_at(content@, name@, i);
            }
        }
    }
    Err(
        BoxliteError::Internal(
            String::from_str("user ").concat(name).concat(" not found in passwd"),
        ),
    )
}

/// Find the primary gid of a numeric uid in passwd content.
///
/// Yields a gid exactly when some entry denotes the uid and the first
/// such entry's gid field parses.  Missing content yields nothing:
/// numeric uids work without a passwd file.
pub fn find_gid_for_uid(content: &str, uid: u32) -> (r: Option<u32>)
    ensures
        r is Some <==> spec_primary_gid_ok(content@, uid as int),
        r matches Some(gid) ==> gid == spec_primary_gid(content@, uid as int),
{
    let lines = split_char(content, '\n');
    let n = lines.len();
    let mut k: usize = 0;
    while k < n
        invariant
            k <= n,
            n == lines@.len(),
            lines.deep_view() == spec_lines(content@),
            forall|j: int|
                0 <= j < k ==> !spec_passwd_entry_for_uid(
                    #[trigger] spec_lines(content@)[j],
                    uid as int,
                ),
        decreases n - k,
    {
        let fields = split_char(lines[k].as_str(), ':');
        proof {
            assert(lines.deep_view()[k as int] == lines@[k as int]@);
            assert(fields.deep_view() == spec_fields(spec_lines(content@)[k as int]));
        }
        let uid_matches = if fields.len() >= 4 {
            match parse_u32(fields[2].as_str()) {
                Some(v) => v == uid,
                None => false,
            }
        } else {
            false
        };
        if uid_matches {
            proof {
                assert(fields.deep_view()[2] == fields@[2]@);
                assert(spec_passwd_entry_for_uid(spec_lines(content@)[k as int], uid as int));
                lemma_first_uid_unique(content@, uid as int, k as int);
                assert(fields.deep_view()[3] == fields@[3]@);
            }
            return parse_u32(fields[3].as_str());
        }
        proof {
            assert(!spec_passwd_entry_for_uid(spec_lines(content@)[k as int], uid as int));
        }
        k += 1;
    }
    proof {
        assert(!(exists|i: int| spec_first_uid_at(content@, uid as int, i))) by {
            if exists|i: int| spec_first_uid_at(content@, uid as int, i) {
                let i = choose|i: int| spec_first_uid_at(content@, uid as int, i);
            }
        }
    }
    None
}

/// Look a group name up in group content.
///
/// Succeeds exactly when some entry carries the name and the first such
/// entry's gid field parses; the result is that gid.
pub fn find_group_in_group_file(content: &str, name: &str) -> (r: BoxliteResult<u32>)
    ensures
        r is Ok <==> spec_group_lookup_ok(content@, name@),
        r matches Ok(gid) ==> gid == spec_group_gid(content@, name@),
        r matches Err(e) ==> e is Internal,
{
    let lines = split_char(content, '\n');
    let n = lines.len();
    let mut k: usize = 0;
    while k < n
        invariant
            k <= n,
            n == lines@.len(),
            lines.deep_view() == spec_lines(content@),
            forall|j: int|
                0 <= j < k ==> !spec_group_entry_for(#[trigger] spec_lines(content@)[j], name@),
        decreases n - k,
    {
        let fields = split_char(lines[k].as_str(), ':');
        proof {
            assert(lines.deep_view()[k as int] == lines@[k as int]@);
            assert(fields.deep_view() == spec_fields(spec_lines(content@)[k as int]));
        }
        if fields.len() >= 3 && str_eq(fields[0].as_str(), name) {
            proof {
                assert(fields.deep_view()[0] == name@);
                assert(spec_group_entry_for(spec_lines(content@)[k as int], name@));
                lemma_first_group_unique(content@, name@, k as int);
                assert(fields.deep_view()[2] == fields@[2]@);
            }
            let gid = match parse_u32(fields[2].as_str()) {
                Some(v) => v,
                None => {
                    return Err(
                        BoxliteError::Internal(
                            String::from_str("invalid gid for group ").concat(name).concat(
                                " in group file",
                            ),
                        ),
                    );
                },
            };
            return Ok(gid);
        }
        proof {
            assert(!spec_group_entry_for(spec_lines(content@)[k as int], name@));
        }
        k += 1;
    }
    proof {
        assert(!(exists|i: int| spec_first_group_at(content@, name@, i))) by {
            if exists|i: int| spec_first_group_at(content@, name@, i) {
                let i = choose|i: int| spec_first_group_at(content@, name@, i);
            }
        }
    }
    Err(
        BoxliteError::Internal(
            String::from_str("group ").concat(name).concat(" not found in group file"),
        ),
    )
}

/// `i` is the first colon of `u`.
pub open spec fn spec_first_colon(u: Seq<char>, i: int) -> bool {
    0 <= i < u.len() && u[i] == ':' && forall|j: int| 0 <= j < i ==> u[j] != ':'
}

/// `u` has no colon.
pub open spec fn spec_no_colon(u: Seq<char>) -> bool {
    forall|j: int| 0 <= j < u.len() ==> u[j] != ':'
}

/// Resolve a user specification to a numeric uid and gid.
///
/// The empty specification is root.  A numeric uid stands by itself, with
/// the passwd's primary gid — or zero without one; a name must resolve in
/// the passwd content.  An explicit non-empty group after the first colon
/// overrides the primary gid, numerically or through the group content; a
/// trailing colon means no override.  `passwd` and `group` are `None`
/// when the respective file could not be read: names then fail, numbers
/// still work.
#[verifier::rlimit(30)]
pub fn resolve_user(passwd: Option<&String>, group: Option<&String>, user: &str) -> (r:
    BoxliteResult<(u32, u32)>)
    ensures
        user@.len() == 0 ==> (r matches Ok(p) && p == (0u32, 0u32)),
        r matches Err(e) ==> e is Internal,
        user@.len() > 0 && spec_no_colon(user@) && spec_parse_u32_ok(user@) ==> (r matches Ok(p)
            && p.0 == spec_parse_u32_value(user@) && p.1 == spec_primary_gid_or_zero(
            match passwd {
                Some(c) => Some(*c),
                None => None,
            },
            spec_parse_u32_value(user@),
        )),
        user@.len() > 0 && spec_no_colon(user@) && !spec_parse_u32_ok(user@) ==> (match passwd {
            Some(c) => (r is Ok <==> spec_user_lookup_ok(c@, user@)) && (r matches Ok(p) && p.0
                == spec_user_uid(c@, user@) && p.1 == spec_user_gid(c@, user@) || r is Err),
            None => r is Err,
        }),
        forall|i: int|
            spec_first_colon(user@, i) ==> {
                let up = user@.take(i);
                let gp = user@.skip(i + 1);
                &&& (spec_parse_u32_ok(up) && gp.len() == 0 ==> (r matches Ok(p) && p.0
                    == spec_parse_u32_value(up) && p.1 == spec_primary_gid_or_zero(
                    match passwd {
                        Some(c) => Some(*c),
                        None => None,
                    },
                    spec_parse_u32_value(up),
                )))
                &&& (spec_parse_u32_ok(up) && gp.len() > 0 && spec_parse_u32_ok(gp) ==> (
                r matches Ok(p) && p.0 == spec_parse_u32_value(up) && p.1 == spec_parse_u32_value(
                    gp,
                )))
                &&& (spec_parse_u32_ok(up) && gp.len() > 0 && !spec_parse_u32_ok(gp)
                    ==> match group {
                    Some(g) => (r is Ok <==> spec_group_lookup_ok(g@, gp)) && (r matches Ok(p)
                        && p.0 == spec_parse_u32_value(up) && p.1 == spec_group_gid(g@, gp)
                        || r is Err),
                    None => r is Err,
                })
                &&& (!spec_parse_u32_ok(up) && passwd is None ==> r is Err)
                &&& (!spec_parse_u32_ok(up) ==> match passwd {
                    Some(c) => (gp.len() == 0 ==> (r is Ok <==> spec_user_lookup_ok(c@, up)) && (
                    r matches Ok(p) && p.0 == spec_user_uid(c@, up) && p.1 == spec_user_gid(
                        c@,
                        up,
                    ) || r is Err)) && (gp.len() > 0 && spec_parse_u32_ok(gp) ==> (r is Ok
                        <==> spec_user_lookup_ok(c@, up)) && (r matches Ok(p) && p.0
                        == spec_user_uid(c@, up) && p.1 == spec_parse_u32_value(gp) || r is Err))
                        && (gp.len() > 0 && !spec_parse_u32_ok(gp) ==> match group {
                        Some(g) => (r is Ok <==> spec_user_lookup_ok(c@, up)
                            && spec_group_lookup_ok(g@, gp)) && (r matches Ok(p) && p.0
                            == spec_user_uid(c@, up) && p.1 == spec_group_gid(g@, gp) || r is Err),
                        None => r is Err,
                    }),
                    None => true,
                })
            },
{
    if user.unicode_len() == 0 {
        return Ok((0, 0));
    }
    let colon = find_char(user, ':');
    proof {
        if let Some(i) = colon {
            assert forall|q: int| spec_first_colon(user@, q) implies q == i as int by {
                if q < i as int {
                    assert(user@[q] != ':');
                }
                if q > i as int {
                    assert(user@[i as int] != ':');
                }
            }
        }
    }
    let (user_part, group_part): (String, Option<String>) = match colon {
        Some(i) => (take_chars(user, i), Some(skip_chars(user, i + 1))),
        None => (user.to_owned(), None),
    };

    let (uid, passwd_gid): (u32, Option<u32>) = match parse_u32(user_part.as_str()) {
        Some(uid) => {
            let pg = match passwd {
                Some(content) => find_gid_for_uid(content.as_str(), uid),
                None => None,
            };
            (uid, pg)
        },
        None => {
            let content = match passwd {
                Some(c) => c,
                None => {
                    return Err(
                        BoxliteError::Internal(
                            String::from_str("cannot resolve user ").concat(
                                user_part.as_str(),
                            ).concat(": failed to read passwd"),
                        ),
                    );
                },
            };
            let ids = find_user_in_passwd(content.as_str(), user_part.as_str())?;
            (ids.0, Some(ids.1))
        },
    };

    let gid: u32 = match &group_part {
        Some(g) => {
            if g.unicode_len() > 0 {
                match parse_u32(g.as_str()) {
                    Some(gid) => gid,
                    None => {
                        let content = match group {
                            Some(c) => c,
                            None => {
                                return Err(
                                    BoxliteError::Internal(
                                        String::from_str("cannot resolve group ").concat(
                                            g.as_str(),
                                        ).concat(": failed to read group file"),
                                    ),
                                );
                            },
                        };
                        find_group_in_group_file(content.as_str(), g.as_str())?
                    },
                }
            } else {
                match passwd_gid {
                    Some(pg) => pg,
                    None => 0,
                }
            }
        },
        None => match passwd_gid {
            Some(pg) => pg,
            None => 0,
        },
    };

    Ok((uid, gid))
}

} // verus!
