use sourcetrait_crossplat_windows::access::{
    AccessAuthority, AccessIdent, Capable, Group, QualifyingAccessAuthority, User,
};
use sourcetrait_crossplat_windows::component::{
    WindowsNetComponentLookup, WindowsUiComponentLookup, ENV_SESSION_NAME,
};
use sourcetrait_crossplat_windows::error::{
    BridgeError, Capability, CrossError, ErrNoun, InternalCause, VarError,
};
use sourcetrait_crossplat_windows::plat::{PlatStr, PlatString};
use sourcetrait_crossplat_windows::wide::wide_units;
use sourcetrait_crossplat_windows::winsys::{
    collect_found, domain_controller_found, group_info_request, group_info_status,
    group_users_request, membership_status, next_member_lookup, plat_strings_from_wide,
    user_groups_request, user_info_request, user_info_status, win_lookup_any_user_info,
    win_lookup_authorative_group_info, win_lookup_authorative_group_users_info,
    win_lookup_authorative_user_groups_info, win_lookup_domain_controller_info,
    win_lookup_qualified_group_info, win_lookup_qualified_user_info, win_lookup_struct_sid_string,
    win_lookup_user_info, AccountRecord, DomainControllerInfo, GroupInfo, NetStatus, UserInfo,
    MAX_PREFERRED_LENGTH, domain_controller_request, qualified_group_server, ControllerReply,
    DS_DIRECTORY_SERVICE_PREFERRED,
    ERROR_ACCESS_DENIED, ERROR_BAD_NETPATH, ERROR_INVALID_LEVEL, GROUP_INFO_3_LEVEL,
    GROUP_USERS_INFO_0_LEVEL, NERR_GROUP_NOT_FOUND, NERR_INVALID_COMPUTER, NERR_SUCCESS,
    NERR_USER_NOT_FOUND, USER_INFO_23_LEVEL,
};

fn s(t: &str) -> PlatString {
    PlatString::String(t.to_string())
}

fn wide(t: &str) -> Vec<u16> {
    t.encode_utf16().collect()
}

fn qualifying() -> QualifyingAccessAuthority {
    QualifyingAccessAuthority {
        domain: s("CORP"),
        authority: AccessAuthority { server_name: s("\\\\dc01") },
    }
}

#[test]
fn status_codes_are_the_windows_ones() {
    assert_eq!(NERR_SUCCESS, windows_sys::Win32::NetworkManagement::NetManagement::NERR_Success);
    assert_eq!(NERR_USER_NOT_FOUND, windows_sys::Win32::NetworkManagement::NetManagement::NERR_UserNotFound);
    assert_eq!(NERR_GROUP_NOT_FOUND, windows_sys::Win32::NetworkManagement::NetManagement::NERR_GroupNotFound);
    assert_eq!(NERR_INVALID_COMPUTER, windows_sys::Win32::NetworkManagement::NetManagement::NERR_InvalidComputer);
    assert_eq!(ERROR_ACCESS_DENIED, windows_sys::Win32::Foundation::ERROR_ACCESS_DENIED);
    assert_eq!(ERROR_BAD_NETPATH, windows_sys::Win32::Foundation::ERROR_BAD_NETPATH);
    assert_eq!(ERROR_INVALID_LEVEL, windows_sys::Win32::Foundation::ERROR_INVALID_LEVEL);
}

#[test]
fn user_record_statuses() {
    assert_eq!(user_info_status(0), Ok(NetStatus::Found));
    assert_eq!(user_info_status(2221), Ok(NetStatus::Missing));
    assert_eq!(user_info_status(5), Err(CrossError::Denied(ErrNoun::User)));
    assert_eq!(user_info_status(53), Err(CrossError::NotFound(ErrNoun::Domain)));
    assert_eq!(user_info_status(2351), Err(CrossError::NotFound(ErrNoun::Domain)));
    assert_eq!(
        user_info_status(124),
        Err(CrossError::Internal(InternalCause::InvalidUserInfoLevel))
    );
    assert_eq!(
        user_info_status(2220),
        Err(CrossError::Internal(InternalCause::UnexpectedErrorKind))
    );
}

#[test]
fn group_record_statuses() {
    assert_eq!(group_info_status(0), Ok(NetStatus::Found));
    assert_eq!(group_info_status(2220), Ok(NetStatus::Missing));
    assert_eq!(group_info_status(5), Err(CrossError::Denied(ErrNoun::UserGroup)));
    assert_eq!(group_info_status(2351), Err(CrossError::NotFound(ErrNoun::Domain)));
    assert_eq!(
        group_info_status(124),
        Err(CrossError::Internal(InternalCause::InvalidGroupInfoLevel))
    );
    assert_eq!(
        group_info_status(53),
        Err(CrossError::Internal(InternalCause::UnexpectedErrorKind))
    );
}

#[test]
fn membership_statuses() {
    assert_eq!(membership_status(0), Ok(()));
    assert_eq!(membership_status(5), Err(CrossError::Denied(ErrNoun::UserGroup)));
    assert_eq!(
        membership_status(124),
        Err(CrossError::Internal(InternalCause::InvalidGroupInfoLevel))
    );
    assert_eq!(membership_status(2221), Err(CrossError::NotFound(ErrNoun::User)));
    assert_eq!(
        membership_status(2220),
        Err(CrossError::Internal(InternalCause::UnexpectedErrorKind))
    );
}

#[test]
fn domain_controller_statuses() {
    assert!(domain_controller_found(0));
    assert!(!domain_controller_found(1355));
}

#[test]
fn internal_messages() {
    assert_eq!(InternalCause::InvalidUserInfoLevel.message(), "Invalid user_info level");
    assert_eq!(InternalCause::InvalidGroupInfoLevel.message(), "Invalid group_info level");
    assert_eq!(InternalCause::UnexpectedErrorKind.message(), "Unexpected error kind");
}

#[test]
fn sid_strings() {
    assert_eq!(
        win_lookup_struct_sid_string(None),
        Err(CrossError::NotFound(ErrNoun::WindowsSID))
    );
    let units = wide("S-1-5-21-1004");
    assert_eq!(win_lookup_struct_sid_string(Some(&units)), Ok("S-1-5-21-1004".to_string()));
    assert_eq!(win_lookup_struct_sid_string(Some(&[0x53, 0xD800])), Err(CrossError::String));
}

#[test]
fn user_records_become_users() {
    let q = qualifying();
    let info = UserInfo::from_record(&wide("alice"), "S-1-5-21-7".to_string(), Some(&q));
    assert_eq!(
        info,
        UserInfo { username: s("alice"), sid: "S-1-5-21-7".to_string(), domain: Some(s("CORP")) }
    );
    let local = UserInfo::from_record(&[0xD800], "S-1-5-18".to_string(), None);
    assert_eq!(local.username, PlatString::OsString(vec![0xD800]));
    assert_eq!(local.domain, None);
    let user = User::from(info);
    assert_eq!(
        user,
        User {
            ident: AccessIdent {
                name: s("alice"),
                domain: Capable::Capable(Some(s("CORP"))),
                id: Capable::Incapable,
                sid: Capable::Capable("S-1-5-21-7".to_string()),
            }
        }
    );
}

#[test]
fn group_records_become_groups() {
    let info = GroupInfo::from_record(&wide("admins"), "S-1-5-32-544".to_string(), PlatStr::Str("CORP"));
    assert_eq!(
        info,
        GroupInfo { name: s("admins"), sid: "S-1-5-32-544".to_string(), domain: Some(s("CORP")) }
    );
    let group = Group::from(info);
    assert_eq!(group.ident.name, s("admins"));
    assert_eq!(group.ident.domain, Capable::Capable(Some(s("CORP"))));
    assert_eq!(group.ident.id, Capable::Incapable);
    assert_eq!(group.ident.sid, Capable::Capable("S-1-5-32-544".to_string()));
}

#[test]
fn controller_records() {
    let c = DomainControllerInfo::from_record(&wide("\\\\dc01"), PlatStr::Str("CORP"));
    assert_eq!(c, DomainControllerInfo { server_name: s("\\\\dc01"), domain: s("CORP") });
}

#[test]
fn membership_names() {
    let entries = vec![wide("a"), vec![0xDC00], wide("")];
    assert_eq!(
        plat_strings_from_wide(&entries),
        vec![s("a"), PlatString::OsString(vec![0xDC00]), s("")]
    );
}

#[test]
fn gathering_keeps_found_accounts_in_order() {
    let results: Vec<Result<Option<u32>, CrossError>> = vec![Ok(Some(1)), Ok(None), Ok(Some(3))];
    assert_eq!(collect_found(results), Ok(vec![1, 3]));
    assert_eq!(collect_found::<u32>(vec![]), Ok(vec![]));
}

#[test]
fn gathering_stops_at_the_first_error() {
    let results: Vec<Result<Option<u32>, CrossError>> = vec![
        Ok(Some(1)),
        Err(CrossError::Denied(ErrNoun::UserGroup)),
        Err(CrossError::String),
        Ok(Some(4)),
    ];
    assert_eq!(collect_found(results), Err(CrossError::Denied(ErrNoun::UserGroup)));
}

#[test]
fn local_user_request() {
    let req = user_info_request(PlatStr::Str("bob"), None).ok().unwrap();
    assert_eq!(req.level, USER_INFO_23_LEVEL);
    assert_eq!(req.level, 23);
    assert!(req.server_name.is_none());
    assert_eq!(wide_units(&req.username), wide("bob"));
    assert!(matches!(user_info_request(PlatStr::Str("b\0b"), None), Err(CrossError::String)));
}

#[test]
fn qualified_user_request() {
    let q = qualifying();
    let req = user_info_request(PlatStr::Str("bob"), Some(&q)).ok().unwrap();
    assert_eq!(req.level, USER_INFO_23_LEVEL);
    assert_eq!(wide_units(req.server_name.as_ref().unwrap()), wide("\\\\dc01"));
    assert_eq!(wide_units(&req.username), wide("bob"));
    let bad = QualifyingAccessAuthority {
        domain: s("CORP"),
        authority: AccessAuthority { server_name: PlatString::OsString(vec![0x41, 0, 0x42]) },
    };
    assert!(matches!(user_info_request(PlatStr::Str("bob"), Some(&bad)), Err(CrossError::String)));
}

#[test]
fn group_requests() {
    let req = group_info_request(PlatStr::Str("admins"), PlatStr::Str("dc01")).ok().unwrap();
    assert_eq!(req.level, GROUP_INFO_3_LEVEL);
    assert_eq!(req.level, 3);
    assert_eq!(wide_units(&req.server_name), wide("dc01"));
    assert_eq!(wide_units(&req.groupname), wide("admins"));

    let req = user_groups_request(PlatStr::Str("bob"), PlatStr::Str("dc01")).ok().unwrap();
    assert_eq!(req.level, GROUP_USERS_INFO_0_LEVEL);
    assert_eq!(req.prefmaxlen, MAX_PREFERRED_LENGTH);
    assert_eq!(req.prefmaxlen, windows_sys::Win32::NetworkManagement::NetManagement::MAX_PREFERRED_LENGTH);
    assert_eq!(wide_units(&req.username), wide("bob"));

    let req = group_users_request(PlatStr::Str("admins"), &qualifying()).ok().unwrap();
    assert_eq!(req.level, 0);
    assert_eq!(req.prefmaxlen, MAX_PREFERRED_LENGTH);
    assert_eq!(req.resume_handle, 0);
    assert_eq!(wide_units(&req.server_name), wide("\\\\dc01"));
    assert!(matches!(group_users_request(PlatStr::Str("a\0b"), &qualifying()), Err(CrossError::String)));
}

fn record(name: &str, sid: Option<&str>) -> AccountRecord {
    AccountRecord { name: wide(name), sid: sid.map(wide) }
}

#[test]
fn user_lookup_results() {
    let q = qualifying();
    assert_eq!(win_lookup_any_user_info(2221, None, Some(&q)), Ok(None));
    assert_eq!(win_lookup_user_info(5, None), Err(CrossError::Denied(ErrNoun::User)));
    assert_eq!(win_lookup_user_info(53, None), Err(CrossError::NotFound(ErrNoun::Domain)));
    assert_eq!(
        win_lookup_user_info(124, None),
        Err(CrossError::Internal(InternalCause::InvalidUserInfoLevel))
    );
    assert_eq!(
        win_lookup_user_info(0, Some(record("alice", Some("S-1-5-21-7")))),
        Ok(Some(UserInfo { username: s("alice"), sid: "S-1-5-21-7".to_string(), domain: None }))
    );
    assert_eq!(
        win_lookup_qualified_user_info(&q, 0, Some(record("alice", Some("S-1-5-21-7")))),
        Ok(Some(UserInfo {
            username: s("alice"),
            sid: "S-1-5-21-7".to_string(),
            domain: Some(s("CORP"))
        }))
    );
    assert_eq!(
        win_lookup_user_info(0, Some(record("alice", None))),
        Err(CrossError::NotFound(ErrNoun::WindowsSID))
    );
    assert_eq!(
        win_lookup_user_info(0, Some(AccountRecord { name: wide("alice"), sid: Some(vec![0xDC00]) })),
        Err(CrossError::String)
    );
}

#[test]
fn group_lookup_results() {
    let d = PlatStr::Str("CORP");
    assert_eq!(win_lookup_authorative_group_info(2220, None, d), Ok(None));
    assert_eq!(win_lookup_authorative_group_info(5, None, d), Err(CrossError::Denied(ErrNoun::UserGroup)));
    assert_eq!(win_lookup_authorative_group_info(2351, None, d), Err(CrossError::NotFound(ErrNoun::Domain)));
    assert_eq!(
        win_lookup_authorative_group_info(53, None, d),
        Err(CrossError::Internal(InternalCause::UnexpectedErrorKind))
    );
    assert_eq!(
        win_lookup_authorative_group_info(0, Some(record("admins", Some("S-1-5-32-544"))), d),
        Ok(Some(GroupInfo { name: s("admins"), sid: "S-1-5-32-544".to_string(), domain: Some(s("CORP")) }))
    );
    assert_eq!(
        win_lookup_authorative_group_info(0, Some(record("admins", None)), d),
        Err(CrossError::NotFound(ErrNoun::WindowsSID))
    );
}

#[test]
fn domain_controller_request_and_results() {
    let req = domain_controller_request(PlatStr::Str("CORP")).ok().unwrap();
    assert!(req.computer_name.is_none());
    assert!(req.domain_guid.is_none());
    assert!(req.site_name.is_none());
    assert_eq!(req.flags, DS_DIRECTORY_SERVICE_PREFERRED);
    assert_eq!(req.flags, windows_sys::Win32::Networking::ActiveDirectory::DS_DIRECTORY_SERVICE_PREFERRED);
    assert_eq!(wide_units(&req.domain_name), wide("CORP"));
    assert!(matches!(domain_controller_request(PlatStr::Str("CO\0RP")), Err(CrossError::String)));

    assert_eq!(win_lookup_domain_controller_info(PlatStr::Str("CO\0RP"), None), Err(CrossError::String));
    let failed = ControllerReply { status: 1355, server_name: None };
    assert_eq!(win_lookup_domain_controller_info(PlatStr::Str("CORP"), Some(failed)), Ok(None));
    let found = ControllerReply { status: 0, server_name: Some(wide("\\\\dc01")) };
    assert_eq!(
        win_lookup_domain_controller_info(PlatStr::Str("CORP"), Some(found)),
        Ok(Some(DomainControllerInfo { server_name: s("\\\\dc01"), domain: s("CORP") }))
    );
}

#[test]
fn qualified_group_server_is_the_found_controller() {
    let c: Result<Option<DomainControllerInfo>, CrossError> =
        Ok(Some(DomainControllerInfo { server_name: s("dc01"), domain: s("CORP") }));
    assert_eq!(qualified_group_server(&c), Some(PlatStr::Str("dc01")));
    assert_eq!(qualified_group_server(&Ok(None)), None);
    assert_eq!(qualified_group_server(&Err(CrossError::String)), None);
}

#[test]
fn qualified_group_needs_a_controller() {
    assert_eq!(
        win_lookup_qualified_group_info(Ok(None), None),
        Err(CrossError::NotFound(ErrNoun::AccessAuthority))
    );
    assert_eq!(win_lookup_qualified_group_info(Err(CrossError::String), None), Err(CrossError::String));
    let c = DomainControllerInfo { server_name: s("dc01"), domain: s("CORP") };
    let g = GroupInfo { name: s("admins"), sid: "S-1".to_string(), domain: Some(s("CORP")) };
    assert_eq!(
        win_lookup_qualified_group_info(Ok(Some(c.clone())), Some(Ok(Some(g.clone())))),
        Ok(Some(g))
    );
    assert_eq!(win_lookup_qualified_group_info(Ok(Some(c)), Some(Ok(None))), Ok(None));
}

#[test]
fn member_lookups_stop_at_the_first_error() {
    let mut results: Vec<Result<Option<u32>, CrossError>> = Vec::new();
    assert_eq!(next_member_lookup(0, 2, &results), Some(0));
    results.push(Ok(None));
    assert_eq!(next_member_lookup(0, 2, &results), Some(1));
    results.push(Ok(Some(7)));
    assert_eq!(next_member_lookup(0, 2, &results), None);
    let failed: Vec<Result<Option<u32>, CrossError>> = vec![Err(CrossError::String)];
    assert_eq!(next_member_lookup(0, 3, &failed), None);
    assert_eq!(next_member_lookup::<u32>(0, 0, &Vec::new()), None);
    assert_eq!(next_member_lookup::<u32>(5, 3, &Vec::new()), None);
}

#[test]
fn membership_results() {
    let g = |n: &str| GroupInfo { name: s(n), sid: "S-1".to_string(), domain: None };
    assert_eq!(
        win_lookup_authorative_user_groups_info(0, 3, vec![Ok(Some(g("a"))), Ok(None), Ok(Some(g("b")))]),
        Ok(vec![g("a"), g("b")])
    );
    assert_eq!(
        win_lookup_authorative_user_groups_info(0, 4, vec![Ok(Some(g("a"))), Err(CrossError::Denied(ErrNoun::UserGroup))]),
        Err(CrossError::Denied(ErrNoun::UserGroup))
    );
    assert_eq!(win_lookup_authorative_user_groups_info(2221, 0, vec![]), Err(CrossError::NotFound(ErrNoun::User)));
    assert_eq!(win_lookup_authorative_user_groups_info(5, 0, vec![]), Err(CrossError::Denied(ErrNoun::UserGroup)));
    assert_eq!(
        win_lookup_authorative_group_users_info(234, 0, vec![]),
        Err(CrossError::Internal(InternalCause::UnexpectedErrorKind))
    );
    assert_eq!(win_lookup_authorative_group_users_info(0, 0, vec![]), Ok(vec![]));
    let u = UserInfo { username: s("bob"), sid: "S-2".to_string(), domain: Some(s("CORP")) };
    assert_eq!(win_lookup_authorative_group_users_info(0, 1, vec![Ok(Some(u.clone()))]), Ok(vec![u]));
}

#[test]
fn network_component_is_incapable_of_domains() {
    let net = WindowsNetComponentLookup;
    assert_eq!(net.lookup_domain(), Err(BridgeError::Incapable(Capability::Domains)));
    assert_eq!(net.lookup_domain_authorities(), Err(BridgeError::Incapable(Capability::Domains)));
}

#[test]
fn command_line_sessions() {
    let ui = WindowsUiComponentLookup;
    assert_eq!(ui.has_command_line_from(Ok("Console".to_string())), Ok(true));
    assert_eq!(ui.has_command_line_from(Ok("RDP-Tcp#0".to_string())), Ok(false));
    assert_eq!(ui.has_command_line_from(Ok("console".to_string())), Ok(false));
    assert_eq!(ui.has_command_line_from(Err(VarError::NotPresent)), Ok(false));
    assert_eq!(
        ui.has_command_line_from(Err(VarError::NotUnicode(vec![0xD800]))),
        Err(BridgeError::EnvVar {
            name: ENV_SESSION_NAME,
            source: VarError::NotUnicode(vec![0xD800])
        })
    );
    assert_eq!(ENV_SESSION_NAME, "SESSION_NAME");
}
