//! The decisions of the Windows account lookups: the requests they make of the network
//! management API, how they read its status codes, and the accounts they build from its records.
use vstd::prelude::*;
use widestring::U16CString;

use crate::access::{AccessIdent, Capable, Group, QualifyingAccessAuthority, User};
use crate::error::{CrossError, CrossResult, ErrNoun, InternalCause};
use crate::plat::{from_wide_view, to_wide_ok, wide_form, PlatStr, PlatString, PlatStringView};
use crate::utf16::{decode_utf16, encode_utf16, lemma_encode_decode};
use crate::wide::has_interior_nul;

verus! {

/// The information level of a user record with its name and security identifier.
pub const USER_INFO_23_LEVEL: u32 = 23;

/// The information level of a membership entry that holds a name.
pub const GROUP_USERS_INFO_0_LEVEL: u32 = 0;

/// The information level of a group record with its name and security identifier.
pub const GROUP_INFO_3_LEVEL: u32 = 3;

/// The preferred maximum length that asks for all the data in one answer.
pub const MAX_PREFERRED_LENGTH: u32 = 0xFFFF_FFFF;

/// Prefer a domain controller that runs the directory service.
pub const DS_DIRECTORY_SERVICE_PREFERRED: u32 = 32;

/// The network management call succeeded.
pub const NERR_SUCCESS: u32 = 0;

/// The group does not exist.
pub const NERR_GROUP_NOT_FOUND: u32 = 2220;

/// The user does not exist.
pub const NERR_USER_NOT_FOUND: u32 = 2221;

/// The computer name is not valid.
pub const NERR_INVALID_COMPUTER: u32 = 2351;

/// Access was denied.
pub const ERROR_ACCESS_DENIED: u32 = 5;

/// The network path was not found.
pub const ERROR_BAD_NETPATH: u32 = 53;

/// The information level is not valid.
pub const ERROR_INVALID_LEVEL: u32 = 124;

/// Whether the record that a lookup asked for exists.
#[derive(Debug, Clone, Copy, PartialEq, Eq, Structural)]
pub enum NetStatus {
    Found,
    Missing,
}

/// A user as the lookups find it.
#[derive(Debug, Clone, PartialEq, Eq)]
pub struct UserInfo {
    pub username: PlatString,
    pub sid: String,
    pub domain: Option<PlatString>,
}

/// A group as the lookups find it.
#[derive(Debug, Clone, PartialEq, Eq)]
pub struct GroupInfo {
    pub name: PlatString,
    pub sid: String,
    pub domain: Option<PlatString>,
}

/// The domain controller that answers for a domain.
#[derive(Debug, Clone, PartialEq, Eq)]
pub struct DomainControllerInfo {
    pub server_name: PlatString,
    pub domain: PlatString,
}

/// A request for a user record (`NetUserGetInfo`): the server to ask (`None` for the local
/// computer), the user name, and the information level.
pub struct NetUserGetInfoRequest {
    pub server_name: Option<U16CString>,
    pub username: U16CString,
    pub level: u32,
}

/// A request for a group record (`NetGroupGetInfo`) from a domain controller.
pub struct NetGroupGetInfoRequest {
    pub server_name: U16CString,
    pub groupname: U16CString,
    pub level: u32,
}

/// A request for the groups of a user (`NetUserGetGroups`) from a domain controller, with the
/// preferred maximum length of the answer.
pub struct NetUserGetGroupsRequest {
    pub server_name: U16CString,
    pub username: U16CString,
    pub level: u32,
    pub prefmaxlen: u32,
}

/// A request for the users of a group (`NetGroupGetUsers`) from a domain's authority, with the
/// preferred maximum length of the answer and the resume handle, passed as an address (zero for
/// none, so no earlier enumeration is resumed).
pub struct NetGroupGetUsersRequest {
    pub server_name: U16CString,
    pub groupname: U16CString,
    pub level: u32,
    pub prefmaxlen: u32,
    pub resume_handle: usize,
}

/// The account that a user record describes.
pub open spec fn user_of(value: UserInfo) -> User {
    User {
        ident: AccessIdent {
            name: value.username,
            domain: Capable::Capable(value.domain),
            id: Capable::Incapable,
            sid: Capable::Capable(value.sid),
        },
    }
}

/// The account that a group record describes.
pub open spec fn group_of(value: GroupInfo) -> Group {
    Group {
        ident: AccessIdent {
            name: value.name,
            domain: Capable::Capable(value.domain),
            id: Capable::Incapable,
            sid: Capable::Capable(value.sid),
        },
    }
}

impl From<UserInfo> for User {
    fn from(value: UserInfo) -> (r: Self)
        ensures
            r.ident.name == value.username,
            r.ident.domain == Capable::Capable(value.domain),
            r.ident.id == Capable::<u32>::Incapable,
            r.ident.sid == Capable::Capable(value.sid),
    {
        User {
            ident: AccessIdent {
                name: value.username,
                domain: Capable::Capable(value.domain),
                id: Capable::Incapable,
                sid: Capable::Capable(value.sid),
            },
        }
    }
}

impl vstd::std_specs::convert::FromSpecImpl<UserInfo> for User {
    open spec fn obeys_from_spec() -> bool {
        true
    }

    open spec fn from_spec(v: UserInfo) -> User {
        user_of(v)
    }
}

impl From<GroupInfo> for Group {
    fn from(value: GroupInfo) -> (r: Self)
        ensures
            r.ident.name == value.name,
            r.ident.domain == Capable::Capable(value.domain),
            r.ident.id == Capable::<u32>::Incapable,
            r.ident.sid == Capable::Capable(value.sid),
    {
        Group {
            ident: AccessIdent {
                name: value.name,
                domain: Capable::Capable(value.domain),
                id: Capable::Incapable,
                sid: Capable::Capable(value.sid),
            },
        }
    }
}

impl vstd::std_specs::convert::FromSpecImpl<GroupInfo> for Group {
    open spec fn obeys_from_spec() -> bool {
        true
    }

    open spec fn from_spec(v: GroupInfo) -> Group {
        group_of(v)
    }
}

/// How a user-record request reads its status: success, a missing user, or an error.
pub open spec fn user_status_spec(status: u32) -> CrossResult<NetStatus> {
    if status == NERR_SUCCESS {
        Ok(NetStatus::Found)
    } else if status == NERR_USER_NOT_FOUND {
        Ok(NetStatus::Missing)
    } else if status == ERROR_ACCESS_DENIED {
        Err(CrossError::Denied(ErrNoun::User))
    } else if status == ERROR_BAD_NETPATH || status == NERR_INVALID_COMPUTER {
        Err(CrossError::NotFound(ErrNoun::Domain))
    } else if status == ERROR_INVALID_LEVEL {
        Err(CrossError::Internal(InternalCause::InvalidUserInfoLevel))
    } else {
        Err(CrossError::Internal(InternalCause::UnexpectedErrorKind))
    }
}

/// How a group-record request reads its status: success, a missing group, or an error.
pub open spec fn group_status_spec(status: u32) -> CrossResult<NetStatus> {
    if status == NERR_SUCCESS {
        Ok(NetStatus::Found)
    } else if status == NERR_GROUP_NOT_FOUND {
        Ok(NetStatus::Missing)
    } else if status == ERROR_ACCESS_DENIED {
        Err(CrossError::Denied(ErrNoun::UserGroup))
    } else if status == NERR_INVALID_COMPUTER {
        Err(CrossError::NotFound(ErrNoun::Domain))
    } else if status == ERROR_INVALID_LEVEL {
        Err(CrossError::Internal(InternalCause::InvalidGroupInfoLevel))
    } else {
        Err(CrossError::Internal(InternalCause::UnexpectedErrorKind))
    }
}

/// How a membership request (the groups of a user, or the users of a group) reads its status.
pub open spec fn membership_status_spec(status: u32) -> CrossResult<()> {
    if status == NERR_SUCCESS {
        Ok(())
    } else if status == ERROR_ACCESS_DENIED {
        Err(CrossError::Denied(ErrNoun::UserGroup))
    } else if status == ERROR_INVALID_LEVEL {
        Err(CrossError::Internal(InternalCause::InvalidGroupInfoLevel))
    } else if status == NERR_USER_NOT_FOUND {
        Err(CrossError::NotFound(ErrNoun::User))
    } else {
        Err(CrossError::Internal(InternalCause::UnexpectedErrorKind))
    }
}

/// Reads the status of a user-record request: success, a missing user, or an error.
pub fn user_info_status(status: u32) -> (r: CrossResult<NetStatus>)
    ensures
        r == user_status_spec(status),
        r == Ok::<NetStatus, CrossError>(NetStatus::Found) <==> status == NERR_SUCCESS,
        r == Ok::<NetStatus, CrossError>(NetStatus::Missing) <==> status == NERR_USER_NOT_FOUND,
{
    if status == NERR_SUCCESS {
        Ok(NetStatus::Found)
    } else if status == NERR_USER_NOT_FOUND {
        Ok(NetStatus::Missing)
    } else if status == ERROR_ACCESS_DENIED {
        Err(CrossError::Denied(ErrNoun::User))
    } else if status == ERROR_BAD_NETPATH || status == NERR_INVALID_COMPUTER {
        Err(CrossError::NotFound(ErrNoun::Domain))
    } else if status == ERROR_INVALID_LEVEL {
        Err(CrossError::Internal(InternalCause::InvalidUserInfoLevel))
    } else {
        Err(CrossError::Internal(InternalCause::UnexpectedErrorKind))
    }
}

/// Reads the status of a group-record request: success, a missing group, or an error.
pub fn group_info_status(status: u32) -> (r: CrossResult<NetStatus>)
    ensures
        r == group_status_spec(status),
        r == Ok::<NetStatus, CrossError>(NetStatus::Found) <==> status == NERR_SUCCESS,
        r == Ok::<NetStatus, CrossError>(NetStatus::Missing) <==> status == NERR_GROUP_NOT_FOUND,
{
    if status == NERR_SUCCESS {
        Ok(NetStatus::Found)
    } else if status == NERR_GROUP_NOT_FOUND {
        Ok(NetStatus::Missing)
    } else if status == ERROR_ACCESS_DENIED {
        Err(CrossError::Denied(ErrNoun::UserGroup))
    } else if status == NERR_INVALID_COMPUTER {
        Err(CrossError::NotFound(ErrNoun::Domain))
    } else if status == ERROR_INVALID_LEVEL {
        Err(CrossError::Internal(InternalCause::InvalidGroupInfoLevel))
    } else {
        Err(CrossError::Internal(InternalCause::UnexpectedErrorKind))
    }
}

/// Reads the status of a membership request (the groups of a user, or the users of a group).
pub fn membership_status(status: u32) -> (r: CrossResult<()>)
    ensures
        r == membership_status_spec(status),
        r is Ok <==> status == NERR_SUCCESS,
{
    if status == NERR_SUCCESS {
        Ok(())
    } else if status == ERROR_ACCESS_DENIED {
        Err(CrossError::Denied(ErrNoun::UserGroup))
    } else if status == ERROR_INVALID_LEVEL {
        Err(CrossError::Internal(InternalCause::InvalidGroupInfoLevel))
    } else if status == NERR_USER_NOT_FOUND {
        Err(CrossError::NotFound(ErrNoun::User))
    } else {
        Err(CrossError::Internal(InternalCause::UnexpectedErrorKind))
    }
}

/// Reads the status of a domain-controller request: only success finds a controller.
pub fn domain_controller_found(status: u32) -> (r: bool)
    ensures
        r == (status == NERR_SUCCESS),
{
    status == NERR_SUCCESS
}

/// The units of an optional wide text.
pub open spec fn opt_units(u: Option<&[u16]>) -> Option<Seq<u16>> {
    match u {
        Some(u) => Some(u@),
        None => None,
    }
}

/// The units of an optional owned wide text.
pub open spec fn opt_vec_units(u: Option<Vec<u16>>) -> Option<Seq<u16>> {
    match u {
        Some(u) => Some(u@),
        None => None,
    }
}

/// The security identifier text of an account, from the wide text that the conversion of its
/// identifier produced (`None` when the conversion failed).
pub open spec fn sid_string_spec(converted: Option<Seq<u16>>) -> CrossResult<Seq<char>> {
    match converted {
        None => Err(CrossError::NotFound(ErrNoun::WindowsSID)),
        Some(u) => match decode_utf16(u) {
            Some(text) => Ok(text),
            None => Err(CrossError::String),
        },
    }
}

/// The security identifier string of an account, from the wide text that the conversion of its
/// identifier produced (`None` when the conversion failed): a missing identifier when it
/// failed, a string error when the text is not Unicode.
pub fn win_lookup_struct_sid_string(converted: Option<&[u16]>) -> (r: CrossResult<String>)
    ensures
        match sid_string_spec(opt_units(converted)) {
            Ok(text) => r matches Ok(sid) && sid@ == text,
            Err(e) => r == Err::<String, CrossError>(e),
        },
        converted is None ==> r == Err::<String, CrossError>(CrossError::NotFound(ErrNoun::WindowsSID)),
        converted matches Some(u) ==> (r is Ok <==> decode_utf16(u@) is Some),
        converted matches Some(u) ==> (r matches Ok(sid) ==> encode_utf16(sid@) == u@),
{
    proof {
        if let Some(u) = converted {
            law_sid_string_is_whole_text(u@);
        }
    }
    match converted {
        None => Err(CrossError::NotFound(ErrNoun::WindowsSID)),
        Some(u) => match PlatString::from_wide(u) {
            PlatString::String(s) => Ok(s),
            PlatString::OsString(_) => Err(CrossError::String),
        },
    }
}

impl UserInfo {
    /// The user of a user record: its name read from wide units, its security identifier, and
    /// the domain of the qualifying authority, if any.
    pub fn from_record(
        name_units: &[u16],
        sid: String,
        qualifying: Option<&QualifyingAccessAuthority>,
    ) -> (r: UserInfo)
        ensures
            r.username@ == from_wide_view(name_units@),
            r.sid == sid,
            match qualifying {
                None => r.domain is None,
                Some(q) => r.domain matches Some(d) && d@ == q.domain@,
            },
    {
        let username = PlatString::from_wide(name_units);
        let domain = match qualifying {
            Some(q) => Some(q.domain().to_plat_string()),
            None => None,
        };
        UserInfo { username, sid, domain }
    }
}

impl GroupInfo {
    /// The group of a group record: its name read from wide units, its security identifier,
    /// and the domain it was looked up in.
    pub fn from_record(name_units: &[u16], sid: String, domain: PlatStr<'_>) -> (r: GroupInfo)
        ensures
            r.name@ == from_wide_view(name_units@),
            r.sid == sid,
            r.domain matches Some(d) && d@ == domain@,
    {
        GroupInfo { name: PlatString::from_wide(name_units), sid, domain: Some(domain.to_plat_string()) }
    }
}

impl DomainControllerInfo {
    /// The controller of a domain, its server name read from wide units.
    pub fn from_record(server_units: &[u16], domain: PlatStr<'_>) -> (r: DomainControllerInfo)
        ensures
            r.server_name@ == from_wide_view(server_units@),
            r.domain@ == domain@,
    {
        DomainControllerInfo {
            server_name: PlatString::from_wide(server_units),
            domain: domain.to_plat_string(),
        }
    }
}

/// The names of the entries of a membership list, each read from its wide units.
pub fn plat_strings_from_wide(entries: &Vec<Vec<u16>>) -> (r: Vec<PlatString>)
    ensures
        r.len() == entries.len(),
        forall|i: int| 0 <= i < entries.len() ==> #[trigger] r[i]@ == from_wide_view(entries[i]@),
{
    let mut out: Vec<PlatString> = Vec::new();
    let mut i: usize = 0;
    while i < entries.len()
        invariant
            i <= entries.len(),
            out.len() == i,
            forall|j: int| 0 <= j < i ==> #[trigger] out[j]@ == from_wide_view(entries[j]@),
        decreases entries.len() - i,
    {
        out.push(PlatString::from_wide(entries[i].as_slice()));
        i = i + 1;
    }
    out
}

/// What gathering lookup results gives: the first error, or else every found value in order.
pub open spec fn gathered<T>(results: Seq<CrossResult<Option<T>>>) -> CrossResult<Seq<T>>
    decreases results.len(),
{
    if results.len() == 0 {
        Ok(seq![])
    } else {
        match results[0] {
            Err(e) => Err(e),
            Ok(found) => match gathered(results.drop_first()) {
                Err(e) => Err(e),
                Ok(rest) => match found {
                    Some(x) => Ok(seq![x] + rest),
                    None => Ok(rest),
                },
            },
        }
    }
}

/// Gathering a prefix extended by one result.
proof fn lemma_gathered_push<T>(results: Seq<CrossResult<Option<T>>>, r: CrossResult<Option<T>>)
    ensures
        gathered(results.push(r)) == match gathered(results) {
            Err(e) => Err(e),
            Ok(acc) => match r {
                Err(e) => Err(e),
                Ok(Some(x)) => Ok(acc.push(x)),
                Ok(None) => Ok(acc),
            },
        },
    decreases results.len(),
{
    let pushed = results.push(r);
    if results.len() == 0 {
        assert(pushed.drop_first() =~= Seq::<CrossResult<Option<T>>>::empty());
        assert(gathered(Seq::<CrossResult<Option<T>>>::empty()) == Ok::<Seq<T>, CrossError>(seq![]));
        assert(pushed[0] == r);
        match r {
            Ok(Some(x)) => {
                assert(seq![x] + Seq::<T>::empty() =~= Seq::<T>::empty().push(x));
            },
            _ => {},
        }
    } else {
        assert(pushed.drop_first() =~= results.drop_first().push(r));
        assert(pushed[0] == results[0]);
        lemma_gathered_push(results.drop_first(), r);
        match (results[0], gathered(results.drop_first())) {
            (Ok(Some(x)), Ok(acc)) => {
                match r {
                    Ok(Some(y)) => {
                        assert(seq![x] + acc.push(y) =~= (seq![x] + acc).push(y));
                    },
                    _ => {},
                }
            },
            _ => {},
        }
    }
}

/// Every value is one that some result found.
pub open spec fn found_among<T>(values: Seq<T>, results: Seq<CrossResult<Option<T>>>) -> bool {
    forall|j: int|
        0 <= j < values.len() ==> exists|i: int|
            0 <= i < results.len() && #[trigger] results[i] == Ok::<Option<T>, CrossError>(
                Some(#[trigger] values[j]),
            )
}

/// What gathering keeps was found by the results.
pub proof fn lemma_gathered_found_among<T>(results: Seq<CrossResult<Option<T>>>)
    ensures
        gathered(results) matches Ok(found) ==> found_among(found, results),
    decreases results.len(),
{
    if results.len() > 0 {
        let rest = results.drop_first();
        lemma_gathered_found_among(rest);
        if let Ok(found) = gathered(results) {
            let rest_found = gathered(rest)->Ok_0;
            assert forall|j: int| 0 <= j < found.len() implies exists|i: int|
                0 <= i < results.len() && #[trigger] results[i] == Ok::<Option<T>, CrossError>(
                    Some(#[trigger] found[j]),
                ) by {
                if results[0] matches Ok(Some(x)) {
                    if j == 0 {
                        assert(results[0] == Ok::<Option<T>, CrossError>(Some(found[0])));
                    } else {
                        assert(found[j] == rest_found[j - 1]);
                        let i = choose|i: int|
                            0 <= i < rest.len() && #[trigger] rest[i] == Ok::<Option<T>, CrossError>(
                                Some(#[trigger] rest_found[j - 1]),
                            );
                        assert(results[i + 1] == rest[i]);
                    }
                } else {
                    assert(found[j] == rest_found[j]);
                    let i = choose|i: int|
                        0 <= i < rest.len() && #[trigger] rest[i] == Ok::<Option<T>, CrossError>(
                            Some(#[trigger] rest_found[j]),
                        );
                    assert(results[i + 1] == rest[i]);
                }
            }
        }
    }
}

/// Gathering keeps no more values than there are results.
pub proof fn lemma_gathered_len<T>(results: Seq<CrossResult<Option<T>>>)
    ensures
        gathered(results) matches Ok(found) ==> found.len() <= results.len(),
    decreases results.len(),
{
    if results.len() > 0 {
        lemma_gathered_len(results.drop_first());
    }
}

/// An error in a prefix is the error of the whole.
proof fn lemma_gathered_error_stays<T>(results: Seq<CrossResult<Option<T>>>, n: int)
    requires
        0 <= n <= results.len(),
        gathered(results.take(n)) is Err,
    ensures
        gathered(results) == gathered(results.take(n)),
    decreases results.len() - n,
{
    if n < results.len() {
        lemma_gathered_push(results.take(n), results[n]);
        assert(results.take(n).push(results[n]) =~= results.take(n + 1));
        lemma_gathered_error_stays(results, n + 1);
    } else {
        assert(results.take(n) =~= results);
    }
}

/// Gathers the results of the lookups of a membership list: the first error, or else every
/// account found, in order, leaving out those that were not found.
pub fn collect_found<T>(results: Vec<CrossResult<Option<T>>>) -> (r: CrossResult<Vec<T>>)
    ensures
        match gathered(results@) {
            Err(e) => r == Err::<Vec<T>, CrossError>(e),
            Ok(found) => r matches Ok(v) && v@ == found,
        },
{
    let ghost all = results@;
    let mut out: Vec<T> = Vec::new();
    for r in it: results.into_iter()
        invariant
            it.seq() == all,
            gathered(all.take(it.index() as int)) matches Ok(acc) && out@ == acc,
    {
        proof {
            lemma_gathered_push(all.take(it.index() as int), r);
            assert(all.take(it.index() as int).push(r) =~= all.take(it.index() + 1));
        }
        match r {
            Err(e) => {
                proof { lemma_gathered_error_stays(all, it.index() + 1); }
                return Err(e);
            },
            Ok(Some(x)) => out.push(x),
            Ok(None) => {},
        }
    }
    assert(all.take(all.len() as int) =~= all);
    Ok(out)
}


/// The wide form of a platform string holds no interior nul, so it converts to a wide string.
pub open spec fn converts(v: crate::plat::PlatStringView) -> bool {
    !has_interior_nul(wide_form(v))
}

/// The request for a user's record at level 23, asked of the qualifying authority's server, or
/// of the local computer when there is none. Fails with a string error when a name does not
/// convert to a wide string.
pub fn user_info_request(username: PlatStr<'_>, qualifying: Option<&QualifyingAccessAuthority>) -> (r:
    CrossResult<NetUserGetInfoRequest>)
    ensures
        r is Ok <==> converts(username@) && (qualifying matches Some(q) ==> converts(
            q.authority.server_name@,
        )),
        r matches Err(e) ==> e == CrossError::String,
        r matches Ok(req) ==> {
            &&& req.level == USER_INFO_23_LEVEL
            &&& to_wide_ok(username@, req.username)
            &&& match qualifying {
                None => req.server_name is None,
                Some(q) => req.server_name matches Some(w) && to_wide_ok(
                    q.authority.server_name@,
                    w,
                ),
            }
        },
{
    let server_name = match qualifying {
        Some(q) => Some(q.authority().server_name().to_wide()?),
        None => None,
    };
    let username = username.to_wide()?;
    Ok(NetUserGetInfoRequest { server_name, username, level: USER_INFO_23_LEVEL })
}

/// The request for a group's record at level 3, asked of a domain controller. Fails with a
/// string error when a name does not convert to a wide string.
pub fn group_info_request(groupname: PlatStr<'_>, controller: PlatStr<'_>) -> (r: CrossResult<
    NetGroupGetInfoRequest,
>)
    ensures
        r is Ok <==> converts(groupname@) && converts(controller@),
        r matches Err(e) ==> e == CrossError::String,
        r matches Ok(req) ==> {
            &&& req.level == GROUP_INFO_3_LEVEL
            &&& to_wide_ok(controller@, req.server_name)
            &&& to_wide_ok(groupname@, req.groupname)
        },
{
    let server_name = controller.to_wide()?;
    let groupname = groupname.to_wide()?;
    Ok(NetGroupGetInfoRequest { server_name, groupname, level: GROUP_INFO_3_LEVEL })
}

/// The request for all the groups of a user at level 0, asked of a domain controller.
pub fn user_groups_request(username: PlatStr<'_>, controller: PlatStr<'_>) -> (r: CrossResult<
    NetUserGetGroupsRequest,
>)
    ensures
        r is Ok <==> converts(username@) && converts(controller@),
        r matches Err(e) ==> e == CrossError::String,
        r matches Ok(req) ==> {
            &&& req.level == GROUP_USERS_INFO_0_LEVEL
            &&& req.prefmaxlen == MAX_PREFERRED_LENGTH
            &&& to_wide_ok(controller@, req.server_name)
            &&& to_wide_ok(username@, req.username)
        },
{
    let server_name = controller.to_wide()?;
    let username = username.to_wide()?;
    Ok(
        NetUserGetGroupsRequest {
            server_name,
            username,
            level: GROUP_USERS_INFO_0_LEVEL,
            prefmaxlen: MAX_PREFERRED_LENGTH,
        },
    )
}

/// The request for all the users of a group at level 0, asked of a qualified domain's authority,
/// without resumption.
pub fn group_users_request(groupname: PlatStr<'_>, qualifying: &QualifyingAccessAuthority) -> (r:
    CrossResult<NetGroupGetUsersRequest>)
    ensures
        r is Ok <==> converts(groupname@) && converts(qualifying.authority.server_name@),
        r matches Err(e) ==> e == CrossError::String,
        r matches Ok(req) ==> {
            &&& req.level == GROUP_USERS_INFO_0_LEVEL
            &&& req.prefmaxlen == MAX_PREFERRED_LENGTH
            &&& req.resume_handle == 0
            &&& to_wide_ok(qualifying.authority.server_name@, req.server_name)
            &&& to_wide_ok(groupname@, req.groupname)
        },
{
    let server_name = qualifying.authority().server_name().to_wide()?;
    let groupname = groupname.to_wide()?;
    Ok(
        NetGroupGetUsersRequest {
            server_name,
            groupname,
            level: GROUP_USERS_INFO_0_LEVEL,
            prefmaxlen: MAX_PREFERRED_LENGTH,
            resume_handle: 0,
        },
    )
}

/// What the system hands back for an account record: the wide units of the account's name, and
/// the wide text that converting its security identifier produced (`None` when the conversion
/// failed).
pub struct AccountRecord {
    pub name: Vec<u16>,
    pub sid: Option<Vec<u16>>,
}

/// The result of a user lookup, from the status of the user-record request and, on success, the
/// record: a missing user is `None`, an error status is its error, a failed identifier
/// conversion is its error, and otherwise the user of the record, with the qualifying
/// authority's domain when there is one.
pub fn win_lookup_any_user_info(
    status: u32,
    record: Option<AccountRecord>,
    qualifying: Option<&QualifyingAccessAuthority>,
) -> (r: CrossResult<Option<UserInfo>>)
    requires
        status == NERR_SUCCESS ==> record is Some,
    ensures
        user_status_spec(status) matches Err(e) ==> r == Err::<Option<UserInfo>, CrossError>(e),
        status == NERR_USER_NOT_FOUND ==> r == Ok::<Option<UserInfo>, CrossError>(None),
        status == NERR_SUCCESS ==> {
            let rec = record->0;
            match sid_string_spec(opt_vec_units(rec.sid)) {
                Err(e) => r == Err::<Option<UserInfo>, CrossError>(e),
                Ok(text) => r matches Ok(Some(info)) && {
                    &&& info.username@ == from_wide_view(rec.name@)
                    &&& info.sid@ == text
                    &&& match qualifying {
                        None => info.domain is None,
                        Some(q) => info.domain matches Some(d) && d@ == q.domain@,
                    }
                },
            }
        },
        status == NERR_SUCCESS && r is Ok ==> record->0.sid is Some,
        r matches Ok(Some(info)) ==> status == NERR_SUCCESS && (record->0.sid matches Some(u)
            && encode_utf16(info.sid@) == u@),
{
    proof {
        law_status_success(status);
        if let Some(rec) = &record {
            if let Some(u) = &rec.sid {
                law_sid_string_is_whole_text(u@);
            }
        }
    }
    match user_info_status(status)? {
        NetStatus::Missing => Ok(None),
        NetStatus::Found => {
            let rec = record.unwrap();
            let converted: Option<&[u16]> = match &rec.sid {
                Some(v) => Some(v.as_slice()),
                None => None,
            };
            let sid = win_lookup_struct_sid_string(converted)?;
            Ok(Some(UserInfo::from_record(rec.name.as_slice(), sid, qualifying)))
        },
    }
}

/// The result of the lookup of a local user.
pub fn win_lookup_user_info(status: u32, record: Option<AccountRecord>) -> (r: CrossResult<
    Option<UserInfo>,
>)
    requires
        status == NERR_SUCCESS ==> record is Some,
    ensures
        user_status_spec(status) matches Err(e) ==> r == Err::<Option<UserInfo>, CrossError>(e),
        status == NERR_USER_NOT_FOUND ==> r == Ok::<Option<UserInfo>, CrossError>(None),
        status == NERR_SUCCESS ==> {
            let rec = record->0;
            match sid_string_spec(opt_vec_units(rec.sid)) {
                Err(e) => r == Err::<Option<UserInfo>, CrossError>(e),
                Ok(text) => r matches Ok(Some(info)) && {
                    &&& info.username@ == from_wide_view(rec.name@)
                    &&& info.sid@ == text
                    &&& info.domain is None
                },
            }
        },
        status == NERR_SUCCESS && r is Ok ==> record->0.sid is Some,
        r matches Ok(Some(info)) ==> status == NERR_SUCCESS && (record->0.sid matches Some(u)
            && encode_utf16(info.sid@) == u@),
{
    win_lookup_any_user_info(status, record, None)
}

/// The result of the lookup of a user of a qualified domain; the user carries the domain.
pub fn win_lookup_qualified_user_info(
    qualifying: &QualifyingAccessAuthority,
    status: u32,
    record: Option<AccountRecord>,
) -> (r: CrossResult<Option<UserInfo>>)
    requires
        status == NERR_SUCCESS ==> record is Some,
    ensures
        user_status_spec(status) matches Err(e) ==> r == Err::<Option<UserInfo>, CrossError>(e),
        status == NERR_USER_NOT_FOUND ==> r == Ok::<Option<UserInfo>, CrossError>(None),
        status == NERR_SUCCESS ==> {
            let rec = record->0;
            match sid_string_spec(opt_vec_units(rec.sid)) {
                Err(e) => r == Err::<Option<UserInfo>, CrossError>(e),
                Ok(text) => r matches Ok(Some(info)) && {
                    &&& info.username@ == from_wide_view(rec.name@)
                    &&& info.sid@ == text
                    &&& info.domain matches Some(d) && d@ == qualifying.domain@
                },
            }
        },
        status == NERR_SUCCESS && r is Ok ==> record->0.sid is Some,
        r matches Ok(Some(info)) ==> status == NERR_SUCCESS && (record->0.sid matches Some(u)
            && encode_utf16(info.sid@) == u@),
{
    win_lookup_any_user_info(status, record, Some(qualifying))
}

/// The result of a group lookup, from the status of the group-record request and, on success,
/// the record: a missing group is `None`, an error status is its error, a failed identifier
/// conversion is its error, and otherwise the group of the record in the domain it was looked up
/// in.
pub fn win_lookup_authorative_group_info(
    status: u32,
    record: Option<AccountRecord>,
    domain: PlatStr<'_>,
) -> (r: CrossResult<Option<GroupInfo>>)
    requires
        status == NERR_SUCCESS ==> record is Some,
    ensures
        group_status_spec(status) matches Err(e) ==> r == Err::<Option<GroupInfo>, CrossError>(e),
        status == NERR_GROUP_NOT_FOUND ==> r == Ok::<Option<GroupInfo>, CrossError>(None),
        status == NERR_SUCCESS ==> {
            let rec = record->0;
            match sid_string_spec(opt_vec_units(rec.sid)) {
                Err(e) => r == Err::<Option<GroupInfo>, CrossError>(e),
                Ok(text) => r matches Ok(Some(info)) && {
                    &&& info.name@ == from_wide_view(rec.name@)
                    &&& info.sid@ == text
                    &&& info.domain matches Some(d) && d@ == domain@
                },
            }
        },
        status == NERR_SUCCESS && r is Ok ==> record->0.sid is Some,
        r matches Ok(Some(info)) ==> status == NERR_SUCCESS && (record->0.sid matches Some(u)
            && encode_utf16(info.sid@) == u@),
{
    proof {
        law_status_success(status);
        if let Some(rec) = &record {
            if let Some(u) = &rec.sid {
                law_sid_string_is_whole_text(u@);
            }
        }
    }
    match group_info_status(status)? {
        NetStatus::Missing => Ok(None),
        NetStatus::Found => {
            let rec = record.unwrap();
            let converted: Option<&[u16]> = match &rec.sid {
                Some(v) => Some(v.as_slice()),
                None => None,
            };
            let sid = win_lookup_struct_sid_string(converted)?;
            Ok(Some(GroupInfo::from_record(rec.name.as_slice(), sid, domain)))
        },
    }
}

/// A request for the controller of a domain (`DsGetDcNameW`): asked of the local computer
/// (`computer_name` none), for the domain's name, with no domain GUID and no site, preferring a
/// controller that runs the directory service.
pub struct DsGetDcNameRequest {
    pub computer_name: Option<U16CString>,
    pub domain_name: U16CString,
    pub domain_guid: Option<u128>,
    pub site_name: Option<U16CString>,
    pub flags: u32,
}

/// The request for the controller of a domain. Fails with a string error when the domain's name
/// does not convert to a wide string.
pub fn domain_controller_request(domain: PlatStr<'_>) -> (r: CrossResult<DsGetDcNameRequest>)
    ensures
        r is Ok <==> converts(domain@),
        r matches Err(e) ==> e == CrossError::String,
        r matches Ok(req) ==> {
            &&& req.computer_name is None
            &&& to_wide_ok(domain@, req.domain_name)
            &&& req.domain_guid is None
            &&& req.site_name is None
            &&& req.flags == DS_DIRECTORY_SERVICE_PREFERRED
        },
{
    let domain_name = domain.to_wide()?;
    Ok(
        DsGetDcNameRequest {
            computer_name: None,
            domain_name,
            domain_guid: None,
            site_name: None,
            flags: DS_DIRECTORY_SERVICE_PREFERRED,
        },
    )
}

/// What the system hands back for a domain-controller request: its status and, on success, the
/// wide units of the controller's name.
pub struct ControllerReply {
    pub status: u32,
    pub server_name: Option<Vec<u16>>,
}

/// The result of a domain-controller lookup: a string error when the domain's name does not
/// convert (the request is then not made); otherwise, from the reply to the request, no
/// controller on every failure and the controller named in the reply on success.
pub fn win_lookup_domain_controller_info(domain: PlatStr<'_>, reply: Option<ControllerReply>) -> (r:
    CrossResult<Option<DomainControllerInfo>>)
    requires
        converts(domain@) ==> reply is Some,
        reply matches Some(rep) ==> (rep.status == NERR_SUCCESS ==> rep.server_name is Some),
    ensures
        !converts(domain@) ==> r == Err::<Option<DomainControllerInfo>, CrossError>(
            CrossError::String,
        ),
        converts(domain@) && reply->0.status != NERR_SUCCESS ==> r == Ok::<
            Option<DomainControllerInfo>,
            CrossError,
        >(None),
        converts(domain@) && reply->0.status == NERR_SUCCESS ==> (r matches Ok(Some(c))
            && c.server_name@ == from_wide_view(reply->0.server_name->0@) && c.domain@ == domain@),
{
    match domain_controller_request(domain) {
        Err(e) => Err(e),
        Ok(_) => {
            let rep = reply.unwrap();
            if domain_controller_found(rep.status) {
                let units = rep.server_name.unwrap();
                Ok(Some(DomainControllerInfo::from_record(units.as_slice(), domain)))
            } else {
                Ok(None)
            }
        },
    }
}

/// The controller at which to look a group of a qualified domain up, from the lookup of the
/// domain's controller: its server when one was found, and no lookup otherwise.
pub fn qualified_group_server<'a>(controller: &'a CrossResult<Option<DomainControllerInfo>>) -> (r:
    Option<PlatStr<'a>>)
    ensures
        match controller {
            Ok(Some(c)) => r matches Some(server) && server@ == c.server_name@,
            _ => r is None,
        },
{
    match controller {
        Ok(Some(c)) => Some(c.server_name.as_plat_str()),
        _ => None,
    }
}

/// The result of the lookup of a group of a qualified domain, from the lookup of the domain's
/// controller and the lookup of the group, which is made exactly when a controller was found:
/// an error of the controller lookup is passed on, no controller means the authority is not
/// found, and otherwise the result is that of the group lookup.
pub fn win_lookup_qualified_group_info(
    controller: CrossResult<Option<DomainControllerInfo>>,
    group: Option<CrossResult<Option<GroupInfo>>>,
) -> (r: CrossResult<Option<GroupInfo>>)
    requires
        (controller matches Ok(Some(_))) <==> group is Some,
    ensures
        match controller {
            Err(e) => r == Err::<Option<GroupInfo>, CrossError>(e),
            Ok(None) => r == Err::<Option<GroupInfo>, CrossError>(
                CrossError::NotFound(ErrNoun::AccessAuthority),
            ),
            Ok(Some(_)) => r == group->0,
        },
{
    match controller {
        Err(e) => Err(e),
        Ok(None) => Err(CrossError::NotFound(ErrNoun::AccessAuthority)),
        Ok(Some(_)) => group.unwrap(),
    }
}

/// The results hold an error.
pub open spec fn has_error<T>(results: Seq<CrossResult<Option<T>>>) -> bool {
    exists|i: int| 0 <= i < results.len() && #[trigger] results[i] is Err
}

/// The index of the next member to look up, given the status of the membership request, how
/// many members the list names and the results so far: none after a failed request, once a
/// result is an error, or once every member has been looked up; the next one otherwise.
pub fn next_member_lookup<T>(
    status: u32,
    member_count: usize,
    results: &Vec<CrossResult<Option<T>>>,
) -> (r: Option<usize>)
    ensures
        status != NERR_SUCCESS ==> r is None,
        has_error(results@) || results.len() >= member_count ==> r is None,
        status == NERR_SUCCESS && !has_error(results@) && results.len() < member_count ==> r
            == Some(results.len()),
        status == NERR_SUCCESS && results.len() < member_count && (forall|i: int|
            0 <= i < results.len() ==> #[trigger] results@[i] is Ok) ==> r == Some(results.len()),
        r matches Some(k) ==> k == results.len() && k < member_count && status == NERR_SUCCESS,
{
    if status != NERR_SUCCESS {
        return None;
    }
    let mut i: usize = 0;
    while i < results.len()
        invariant
            i <= results.len(),
            forall|j: int| 0 <= j < i ==> !(#[trigger] results@[j] is Err),
        decreases results.len() - i,
    {
        if results[i].is_err() {
            return None;
        }
        i = i + 1;
    }
    if results.len() < member_count {
        Some(results.len())
    } else {
        None
    }
}

/// The result of a membership lookup, from the status of the membership request and the
/// lookups of its members.
fn membership_result<T>(status: u32, member_count: usize, results: Vec<CrossResult<Option<T>>>) -> (r:
    CrossResult<Vec<T>>)
    requires
        results.len() <= member_count,
    ensures
        membership_status_spec(status) matches Err(e) ==> r == Err::<Vec<T>, CrossError>(e),
        status == NERR_SUCCESS ==> match gathered(results@) {
            Err(e) => r == Err::<Vec<T>, CrossError>(e),
            Ok(found) => r matches Ok(v) && v@ == found,
        },
        r matches Ok(v) ==> v.len() <= member_count && found_among(v@, results@),
{
    proof {
        lemma_gathered_len(results@);
        lemma_gathered_found_among(results@);
    }
    membership_status(status)?;
    collect_found(results)
}

/// The result of looking up the groups of a user, from the status of the membership request and
/// the lookups of the groups it names (made in order, up to and including the first error): an
/// error status is its error, and otherwise the first error of the group lookups, or else every
/// group found, in order.
pub fn win_lookup_authorative_user_groups_info(
    status: u32,
    member_count: usize,
    results: Vec<CrossResult<Option<GroupInfo>>>,
) -> (r: CrossResult<Vec<GroupInfo>>)
    requires
        status != NERR_SUCCESS ==> results.len() == 0,
        results.len() <= member_count,
    ensures
        membership_status_spec(status) matches Err(e) ==> r == Err::<Vec<GroupInfo>, CrossError>(
            e,
        ),
        status == NERR_SUCCESS ==> match gathered(results@) {
            Err(e) => r == Err::<Vec<GroupInfo>, CrossError>(e),
            Ok(found) => r matches Ok(v) && v@ == found,
        },
        r matches Ok(v) ==> v.len() <= member_count && found_among(v@, results@),
        r is Ok ==> status == NERR_SUCCESS,
        status == NERR_SUCCESS && (forall|i: int| 0 <= i < results.len() ==> #[trigger] results@[i] is Ok)
            ==> (r matches Ok(v) && v@ == found_values(results@)),
{
    proof {
        law_status_success(status);
        if forall|i: int| 0 <= i < results.len() ==> #[trigger] results@[i] is Ok {
            law_gathered_without_errors(results@);
        }
    }
    membership_result(status, member_count, results)
}

/// The result of looking up the users of a group, from the status of the membership request and
/// the lookups of the users it names (made in order, up to and including the first error): an
/// error status is its error, and otherwise the first error of the user lookups, or else every
/// user found, in order.
pub fn win_lookup_authorative_group_users_info(
    status: u32,
    member_count: usize,
    results: Vec<CrossResult<Option<UserInfo>>>,
) -> (r: CrossResult<Vec<UserInfo>>)
    requires
        status != NERR_SUCCESS ==> results.len() == 0,
        results.len() <= member_count,
    ensures
        membership_status_spec(status) matches Err(e) ==> r == Err::<Vec<UserInfo>, CrossError>(
            e,
        ),
        status == NERR_SUCCESS ==> match gathered(results@) {
            Err(e) => r == Err::<Vec<UserInfo>, CrossError>(e),
            Ok(found) => r matches Ok(v) && v@ == found,
        },
        r matches Ok(v) ==> v.len() <= member_count && found_among(v@, results@),
        r is Ok ==> status == NERR_SUCCESS,
        status == NERR_SUCCESS && (forall|i: int| 0 <= i < results.len() ==> #[trigger] results@[i] is Ok)
            ==> (r matches Ok(v) && v@ == found_values(results@)),
{
    proof {
        law_status_success(status);
        if forall|i: int| 0 <= i < results.len() ==> #[trigger] results@[i] is Ok {
            law_gathered_without_errors(results@);
        }
    }
    membership_result(status, member_count, results)
}

/// An account carries the given domain.
pub open spec fn carries_domain(domain: Option<PlatString>, asked: PlatStringView) -> bool {
    domain matches Some(d) && d@ == asked
}

/// The groups a membership lookup returns carry the domain asked when every group lookup of its
/// members was made in that domain (as `win_lookup_authorative_group_info` gives for the domain
/// it is handed).
pub proof fn law_member_groups_carry_domain(
    groups: Seq<GroupInfo>,
    results: Seq<CrossResult<Option<GroupInfo>>>,
    asked: PlatStringView,
)
    requires
        found_among(groups, results),
        forall|i: int|
            0 <= i < results.len() ==> (#[trigger] results[i] matches Ok(Some(g)) ==> carries_domain(
                g.domain,
                asked,
            )),
    ensures
        forall|j: int| 0 <= j < groups.len() ==> carries_domain(#[trigger] groups[j].domain, asked),
{
    assert forall|j: int| 0 <= j < groups.len() implies carries_domain(
        #[trigger] groups[j].domain,
        asked,
    ) by {
        let i = choose|i: int|
            0 <= i < results.len() && #[trigger] results[i] == Ok::<Option<GroupInfo>, CrossError>(
                Some(#[trigger] groups[j]),
            );
        assert(results[i] == Ok::<Option<GroupInfo>, CrossError>(Some(groups[j])));
    }
}

/// The users a membership lookup returns carry the qualifying domain when every user lookup of
/// its members was made at the qualifying authority (as `win_lookup_qualified_user_info` gives).
pub proof fn law_member_users_carry_domain(
    users: Seq<UserInfo>,
    results: Seq<CrossResult<Option<UserInfo>>>,
    asked: PlatStringView,
)
    requires
        found_among(users, results),
        forall|i: int|
            0 <= i < results.len() ==> (#[trigger] results[i] matches Ok(Some(u)) ==> carries_domain(
                u.domain,
                asked,
            )),
    ensures
        forall|j: int| 0 <= j < users.len() ==> carries_domain(#[trigger] users[j].domain, asked),
{
    assert forall|j: int| 0 <= j < users.len() implies carries_domain(
        #[trigger] users[j].domain,
        asked,
    ) by {
        let i = choose|i: int|
            0 <= i < results.len() && #[trigger] results[i] == Ok::<Option<UserInfo>, CrossError>(
                Some(#[trigger] users[j]),
            );
        assert(results[i] == Ok::<Option<UserInfo>, CrossError>(Some(users[j])));
    }
}

/// A SID string is the whole of the identifier's wide text: well-formed text always gives one,
/// and re-encoding it gives back exactly that text; a failed conversion gives no SID.
pub proof fn law_sid_string_is_whole_text(u: Seq<u16>)
    ensures
        sid_string_spec(Some(u)) is Ok <==> decode_utf16(u) is Some,
        sid_string_spec(Some(u)) matches Ok(t) ==> encode_utf16(t) == u,
        sid_string_spec(None) == Err::<Seq<char>, CrossError>(CrossError::NotFound(ErrNoun::WindowsSID)),
{
    if decode_utf16(u) is Some {
        lemma_encode_decode(u);
    }
}

/// The account made from a user record keeps the record's name, domain and SID, whatever they
/// are, and has no numeric id.
pub proof fn law_user_account_keeps_record(v: UserInfo)
    ensures
        user_of(v).ident.name == v.username,
        user_of(v).ident.domain == Capable::Capable(v.domain),
        user_of(v).ident.id == Capable::<u32>::Incapable,
        user_of(v).ident.sid == Capable::Capable(v.sid),
{
}

/// The account made from a group record keeps the record's name, domain and SID, whatever they
/// are, and has no numeric id.
pub proof fn law_group_account_keeps_record(v: GroupInfo)
    ensures
        group_of(v).ident.name == v.name,
        group_of(v).ident.domain == Capable::Capable(v.domain),
        group_of(v).ident.id == Capable::<u32>::Incapable,
        group_of(v).ident.sid == Capable::Capable(v.sid),
{
}

/// Only success finds a record, only the not-found code means a missing one, and a membership
/// request succeeds only on success: every other status is an error.
pub proof fn law_status_success(status: u32)
    ensures
        user_status_spec(status) == Ok::<NetStatus, CrossError>(NetStatus::Found) <==> status
            == NERR_SUCCESS,
        user_status_spec(status) == Ok::<NetStatus, CrossError>(NetStatus::Missing) <==> status
            == NERR_USER_NOT_FOUND,
        group_status_spec(status) == Ok::<NetStatus, CrossError>(NetStatus::Found) <==> status
            == NERR_SUCCESS,
        group_status_spec(status) == Ok::<NetStatus, CrossError>(NetStatus::Missing) <==> status
            == NERR_GROUP_NOT_FOUND,
        membership_status_spec(status) is Ok <==> status == NERR_SUCCESS,
{
}

/// Results that are all answers (found or missing) hold no error; an error result is one.
pub proof fn law_answers_are_no_error<T>(results: Seq<CrossResult<Option<T>>>)
    ensures
        (forall|i: int| 0 <= i < results.len() ==> #[trigger] results[i] is Ok) <==> !has_error(
            results,
        ),
{
}

/// The value a lookup result found, if any.
pub open spec fn found_value<T>(r: CrossResult<Option<T>>) -> Option<T> {
    match r {
        Ok(Some(x)) => Some(x),
        _ => None,
    }
}

/// Every value the results found, in order.
pub open spec fn found_values<T>(results: Seq<CrossResult<Option<T>>>) -> Seq<T> {
    results.filter_map(|r: CrossResult<Option<T>>| found_value(r))
}

/// Without an error among the results, gathering keeps every value found, in order, and nothing
/// else.
pub proof fn law_gathered_without_errors<T>(results: Seq<CrossResult<Option<T>>>)
    requires
        forall|i: int| 0 <= i < results.len() ==> #[trigger] results[i] is Ok,
    ensures
        gathered(results) == Ok::<Seq<T>, CrossError>(found_values(results)),
    decreases results.len(),
{
    if results.len() == 0 {
        assert(found_values(results) =~= Seq::<T>::empty());
    } else {
        let init = results.drop_last();
        let last = results.last();
        assert forall|i: int| 0 <= i < init.len() implies #[trigger] init[i] is Ok by {
            assert(init[i] == results[i]);
        }
        law_gathered_without_errors(init);
        lemma_gathered_push(init, last);
        assert(init.push(last) =~= results);
        assert(results[results.len() - 1] is Ok);
        assert(found_values(results) == match found_value(last) {
            Some(x) => found_values(init) + seq![x],
            None => found_values(init),
        });
        match last {
            Ok(Some(x)) => {
                assert(found_values(init).push(x) =~= found_values(init) + seq![x]);
            },
            _ => {},
        }
    }
}

/// The first error among the results is the result of gathering them.
pub proof fn law_gathered_first_error<T>(results: Seq<CrossResult<Option<T>>>, k: int)
    requires
        0 <= k < results.len(),
        results[k] is Err,
        forall|i: int| 0 <= i < k ==> #[trigger] results[i] is Ok,
    ensures
        gathered(results) == Err::<Seq<T>, CrossError>(results[k]->Err_0),
{
    let pre = results.take(k);
    assert forall|i: int| 0 <= i < pre.len() implies #[trigger] pre[i] is Ok by {
        assert(pre[i] == results[i]);
    }
    law_gathered_without_errors(pre);
    lemma_gathered_push(pre, results[k]);
    assert(pre.push(results[k]) =~= results.take(k + 1));
    lemma_gathered_error_stays(results, k + 1);
}

/// What each failing status means: access denied is a denial about the account asked, an
/// unknown computer (or, for users, an unreachable network path) means the domain is not found,
/// an information level the system refuses is an internal error naming the level, and any other
/// failing status is an unexpected one.
pub proof fn law_status_errors(status: u32)
    ensures
        status == ERROR_ACCESS_DENIED ==> user_status_spec(status) == Err::<NetStatus, CrossError>(
            CrossError::Denied(ErrNoun::User),
        ) && group_status_spec(status) == Err::<NetStatus, CrossError>(
            CrossError::Denied(ErrNoun::UserGroup),
        ) && membership_status_spec(status) == Err::<(), CrossError>(
            CrossError::Denied(ErrNoun::UserGroup),
        ),
        status == NERR_INVALID_COMPUTER ==> user_status_spec(status) == Err::<NetStatus, CrossError>(
            CrossError::NotFound(ErrNoun::Domain),
        ) && group_status_spec(status) == Err::<NetStatus, CrossError>(
            CrossError::NotFound(ErrNoun::Domain),
        ),
        status == ERROR_BAD_NETPATH ==> user_status_spec(status) == Err::<NetStatus, CrossError>(
            CrossError::NotFound(ErrNoun::Domain),
        ) && group_status_spec(status) == Err::<NetStatus, CrossError>(
            CrossError::Internal(InternalCause::UnexpectedErrorKind),
        ) && membership_status_spec(status) == Err::<(), CrossError>(
            CrossError::Internal(InternalCause::UnexpectedErrorKind),
        ),
        status == ERROR_INVALID_LEVEL ==> user_status_spec(status) == Err::<NetStatus, CrossError>(
            CrossError::Internal(InternalCause::InvalidUserInfoLevel),
        ) && group_status_spec(status) == Err::<NetStatus, CrossError>(
            CrossError::Internal(InternalCause::InvalidGroupInfoLevel),
        ) && membership_status_spec(status) == Err::<(), CrossError>(
            CrossError::Internal(InternalCause::InvalidGroupInfoLevel),
        ),
        status == NERR_USER_NOT_FOUND ==> membership_status_spec(status) == Err::<(), CrossError>(
            CrossError::NotFound(ErrNoun::User),
        ),
        status == NERR_GROUP_NOT_FOUND ==> user_status_spec(status) == Err::<NetStatus, CrossError>(
            CrossError::Internal(InternalCause::UnexpectedErrorKind),
        ),
        status == NERR_USER_NOT_FOUND ==> group_status_spec(status) == Err::<NetStatus, CrossError>(
            CrossError::Internal(InternalCause::UnexpectedErrorKind),
        ),
{
}

} // verus!
