use modbot::flow::{
    Action, ApiError, DbError, Event, Flow, Stage, ADMIN_HELP, ALREADY_ADMIN, BAN_FAILED,
    CANNOT_BAN_STAFF, CANNOT_BAN_USER, INTERNAL_ERROR, NOT_BANNED, NO_RIGHTS_FOR_BOTS, OWNER_HELP,
    OWNER_ONLY, REPLY_TO_OFFENDER, REPLY_TO_PERSON, STAFF_ONLY, UNBANNED, UNBAN_FAILED, USER_HELP,
    WAS_NOT_ADMIN,
};
use modbot::model::{Command, ReplyInfo, Request, UserInfo};
use std::collections::HashMap;

const CHAT: i64 = -1001;
const OWNER: u64 = 1;
const ADMIN: u64 = 2;
const MEMBER: u64 = 3;
const SPAMMER: u64 = 4;
const BOT: u64 = 5;

fn user(id: u64, first: &str, last: Option<&str>, is_bot: bool) -> UserInfo {
    UserInfo {
        id,
        is_bot,
        first_name: first.to_string(),
        last_name: last.map(|s| s.to_string()),
    }
}

fn person(id: u64) -> UserInfo {
    match id {
        OWNER => user(OWNER, "Olga", None, false),
        ADMIN => user(ADMIN, "Anton", Some("Petrov"), false),
        MEMBER => user(MEMBER, "Mila", None, false),
        SPAMMER => user(SPAMMER, "Spam<b>", Some("&Co"), false),
        _ => user(id, "Helper", None, true),
    }
}

fn request(command: Command, from: Option<u64>, answered: Option<Option<u64>>, text: &str) -> Request {
    Request {
        chat_id: CHAT,
        from: from.map(person),
        reply_to: answered.map(|author| ReplyInfo { message_id: 77, from: author.map(person) }),
        text: Some(text.to_string()),
        command,
    }
}

/// What the outside world answers.
struct World {
    roles: HashMap<i64, Option<String>>,
    role_error: bool,
    rows: Result<u64, DbError>,
    limits: Result<Option<(i64, i64)>, DbError>,
    clock: i64,
    count: Result<i64, DbError>,
    record: Result<(), DbError>,
    telegram: Result<(), ApiError>,
    send: Result<(), ApiError>,
}

impl World {
    fn new() -> World {
        let mut roles = HashMap::new();
        roles.insert(OWNER as i64, Some("owner".to_string()));
        roles.insert(ADMIN as i64, Some("admin".to_string()));
        World {
            roles,
            role_error: false,
            rows: Ok(1),
            limits: Ok(None),
            clock: 1_700_000_000,
            count: Ok(0),
            record: Ok(()),
            telegram: Ok(()),
            send: Ok(()),
        }
    }

    fn answer(&self, a: &Action) -> Event {
        match a {
            Action::LookupRole { user_id, .. } => {
                if self.role_error {
                    Event::RoleFound(Err(DbError))
                } else {
                    Event::RoleFound(Ok(self.roles.get(user_id).cloned().flatten()))
                }
            }
            Action::AddAdmin { .. } | Action::RemoveAdmin { .. } | Action::ForgetBan { .. } => {
                Event::RowsChanged(self.rows)
            }
            Action::GetLimits { .. } => Event::LimitsFound(self.limits),
            Action::ReadClock => Event::ClockRead(self.clock),
            Action::CountBansSince { .. } => Event::BansCounted(self.count),
            Action::RecordBan { .. } => Event::BanRecorded(self.record),
            Action::BanMember { .. } | Action::UnbanMember { .. } | Action::DeleteMessage { .. } => {
                Event::TelegramDone(self.telegram)
            }
            Action::SendText { .. } => Event::TelegramDone(self.send),
            Action::Finish { .. } => panic!("nothing to answer"),
        }
    }
}

/// Runs a command to its end; gives the actions taken and whether it ended well.
fn run(world: &World, req: Request) -> (Vec<Action>, bool) {
    let (mut flow, mut action) = Flow::start(req);
    let mut log = Vec::new();
    loop {
        if let Action::Finish { ok } = action {
            assert!(matches!(flow.stage, Stage::Finished { .. }));
            return (log, ok);
        }
        let e = world.answer(&action);
        assert!(flow.accepts(&e));
        if let Some(Action::SendText { .. }) = log.last() {
            panic!("an action after the reply");
        }
        log.push(action);
        let (f, a) = flow.step(e);
        flow = f;
        action = a;
        assert!(log.len() <= 11);
    }
}

fn reply(text: &str, html: bool) -> Action {
    Action::SendText { chat_id: CHAT, text: text.to_string(), html }
}

fn lookup(id: u64) -> Action {
    Action::LookupRole { chat_id: CHAT, user_id: id as i64 }
}

#[test]
fn help_depends_on_role() {
    let w = World::new();
    for (who, text) in [(OWNER, OWNER_HELP), (ADMIN, ADMIN_HELP), (MEMBER, USER_HELP)] {
        let (log, ok) = run(&w, request(Command::Help, Some(who), None, "/help"));
        assert!(ok);
        assert_eq!(log, vec![lookup(who), reply(text, false)]);
    }
}

#[test]
fn help_after_a_failed_lookup_is_the_user_help() {
    let mut w = World::new();
    w.role_error = true;
    let (log, _) = run(&w, request(Command::Help, Some(OWNER), None, "/help"));
    assert_eq!(log[1], reply(USER_HELP, false));
}

#[test]
fn a_message_without_author_is_ignored() {
    let w = World::new();
    let (log, ok) = run(&w, request(Command::Ban, None, Some(Some(SPAMMER)), "/ban"));
    assert!(ok);
    assert!(log.is_empty());
}

#[test]
fn giveadmin_is_for_the_owner() {
    let w = World::new();
    let (log, _) = run(&w, request(Command::GiveAdmin, Some(ADMIN), Some(Some(MEMBER)), "/giveadmin"));
    assert_eq!(log, vec![lookup(ADMIN), reply(OWNER_ONLY, false)]);
}

#[test]
fn giveadmin_needs_an_answered_message() {
    let w = World::new();
    let (log, _) = run(&w, request(Command::GiveAdmin, Some(OWNER), None, "/giveadmin"));
    assert_eq!(log, vec![lookup(OWNER), reply(REPLY_TO_PERSON, false)]);
    let (log, _) = run(&w, request(Command::GiveAdmin, Some(OWNER), Some(None), "/giveadmin"));
    assert_eq!(log, vec![lookup(OWNER), reply(REPLY_TO_PERSON, false)]);
}

#[test]
fn bots_get_no_rights() {
    let w = World::new();
    let (log, _) = run(&w, request(Command::GiveAdmin, Some(OWNER), Some(Some(BOT)), "/giveadmin"));
    assert_eq!(log, vec![lookup(OWNER), reply(NO_RIGHTS_FOR_BOTS, false)]);
}

#[test]
fn giveadmin_grants_and_mentions() {
    let w = World::new();
    let (log, ok) = run(&w, request(Command::GiveAdmin, Some(OWNER), Some(Some(SPAMMER)), "/giveadmin"));
    assert!(ok);
    assert_eq!(
        log,
        vec![
            lookup(OWNER),
            Action::AddAdmin { chat_id: CHAT, user_id: SPAMMER as i64 },
            reply(
                "<a href=\"tg://user?id=4\">Spam&lt;b&gt; &amp;Co</a> теперь администратор",
                true
            ),
        ]
    );
}

#[test]
fn giveadmin_to_someone_with_a_role() {
    let mut w = World::new();
    w.rows = Ok(0);
    let (log, _) = run(&w, request(Command::GiveAdmin, Some(OWNER), Some(Some(ADMIN)), "/giveadmin"));
    assert_eq!(log[2], reply(ALREADY_ADMIN, true));
    w.rows = Err(DbError);
    let (log, _) = run(&w, request(Command::GiveAdmin, Some(OWNER), Some(Some(ADMIN)), "/giveadmin"));
    assert_eq!(log[2], reply(INTERNAL_ERROR, true));
}

#[test]
fn removeadmin_names_the_former_admin() {
    let w = World::new();
    let (log, _) = run(&w, request(Command::RemoveAdmin, Some(OWNER), Some(Some(ADMIN)), "/removeadmin"));
    assert_eq!(
        log,
        vec![
            lookup(OWNER),
            Action::RemoveAdmin { chat_id: CHAT, user_id: ADMIN as i64 },
            reply("Anton Petrov больше не администратор", false),
        ]
    );
}

#[test]
fn removeadmin_of_a_non_admin() {
    let mut w = World::new();
    w.rows = Ok(0);
    let (log, _) = run(&w, request(Command::RemoveAdmin, Some(OWNER), Some(Some(MEMBER)), "/removeadmin"));
    assert_eq!(log[2], reply(WAS_NOT_ADMIN, false));
    let (log, _) = run(&w, request(Command::RemoveAdmin, Some(MEMBER), Some(Some(ADMIN)), "/removeadmin"));
    assert_eq!(log, vec![lookup(MEMBER), reply(OWNER_ONLY, false)]);
}

#[test]
fn members_cannot_ban() {
    let w = World::new();
    let (log, _) = run(&w, request(Command::Ban, Some(MEMBER), Some(Some(SPAMMER)), "/ban"));
    assert_eq!(log, vec![lookup(MEMBER), reply(STAFF_ONLY, false)]);
}

#[test]
fn ban_needs_an_answered_message() {
    let w = World::new();
    let (log, _) = run(&w, request(Command::Ban, Some(ADMIN), None, "/ban"));
    assert_eq!(log, vec![lookup(ADMIN), reply(REPLY_TO_OFFENDER, false)]);
    let (log, ok) = run(&w, request(Command::Ban, Some(ADMIN), Some(None), "/ban"));
    assert!(ok);
    assert_eq!(log, vec![lookup(ADMIN)]);
}

#[test]
fn bots_and_oneself_are_not_banned() {
    let w = World::new();
    let (log, _) = run(&w, request(Command::Ban, Some(ADMIN), Some(Some(BOT)), "/ban"));
    assert_eq!(log, vec![lookup(ADMIN), reply(CANNOT_BAN_USER, false)]);
    let (log, _) = run(&w, request(Command::Ban, Some(ADMIN), Some(Some(ADMIN)), "/ban"));
    assert_eq!(log, vec![lookup(ADMIN), reply(CANNOT_BAN_USER, false)]);
}

#[test]
fn staff_are_not_banned() {
    let w = World::new();
    let (log, _) = run(&w, request(Command::Ban, Some(ADMIN), Some(Some(OWNER)), "/ban"));
    assert_eq!(log, vec![lookup(ADMIN), lookup(OWNER), reply(CANNOT_BAN_STAFF, false)]);
}

#[test]
fn the_owner_bans_without_limits() {
    let w = World::new();
    let (log, ok) = run(&w, request(Command::Ban, Some(OWNER), Some(Some(MEMBER)), "/ban"));
    assert!(ok);
    assert_eq!(
        log,
        vec![
            lookup(OWNER),
            lookup(MEMBER),
            Action::BanMember { chat_id: CHAT, user_id: MEMBER },
            Action::RecordBan { chat_id: CHAT, user_id: MEMBER as i64, banned_by: OWNER as i64, reason: None },
            Action::DeleteMessage { chat_id: CHAT, message_id: 77 },
            reply("<a href=\"tg://user?id=3\">Mila</a> забанен", true),
        ]
    );
}

#[test]
fn an_admin_bans_within_the_default_limit() {
    let w = World::new();
    let (log, ok) = run(&w, request(Command::Ban, Some(ADMIN), Some(Some(MEMBER)), "/ban  флуд и спам "));
    assert!(ok);
    assert_eq!(
        log,
        vec![
            lookup(ADMIN),
            lookup(MEMBER),
            Action::GetLimits { chat_id: CHAT },
            Action::ReadClock,
            Action::CountBansSince { chat_id: CHAT, admin_id: ADMIN as i64, since: 1_700_000_000 - 6 * 3600 },
            Action::BanMember { chat_id: CHAT, user_id: MEMBER },
            Action::RecordBan {
                chat_id: CHAT,
                user_id: MEMBER as i64,
                banned_by: ADMIN as i64,
                reason: Some("флуд и спам".to_string()),
            },
            Action::DeleteMessage { chat_id: CHAT, message_id: 77 },
            reply("<a href=\"tg://user?id=3\">Mila</a> забанен. Причина: флуд и спам", true),
        ]
    );
}

#[test]
fn an_admin_at_the_limit_is_stopped() {
    let mut w = World::new();
    w.count = Ok(5);
    let (log, _) = run(&w, request(Command::Ban, Some(ADMIN), Some(Some(MEMBER)), "/ban"));
    assert_eq!(log.len(), 6);
    assert_eq!(log[5], reply("Лимит: не больше 5 банов за 6 ч", false));
    w.limits = Ok(Some((2, 24)));
    w.count = Ok(1);
    let (log, _) = run(&w, request(Command::Ban, Some(ADMIN), Some(Some(MEMBER)), "/ban"));
    assert_eq!(
        log[4],
        Action::CountBansSince { chat_id: CHAT, admin_id: ADMIN as i64, since: 1_700_000_000 - 24 * 3600 }
    );
    assert_eq!(log[5], Action::BanMember { chat_id: CHAT, user_id: MEMBER });
    w.count = Ok(2);
    let (log, _) = run(&w, request(Command::Ban, Some(ADMIN), Some(Some(MEMBER)), "/ban"));
    assert_eq!(log[5], reply("Лимит: не больше 2 банов за 24 ч", false));
}

#[test]
fn database_errors_while_counting_bans() {
    let mut w = World::new();
    w.limits = Err(DbError);
    let (log, _) = run(&w, request(Command::Ban, Some(ADMIN), Some(Some(MEMBER)), "/ban"));
    assert_eq!(log[3], reply(INTERNAL_ERROR, false));
    let mut w = World::new();
    w.count = Err(DbError);
    let (log, _) = run(&w, request(Command::Ban, Some(ADMIN), Some(Some(MEMBER)), "/ban"));
    assert_eq!(log[5], reply(INTERNAL_ERROR, false));
}

#[test]
fn a_failed_telegram_ban_is_reported() {
    let mut w = World::new();
    w.telegram = Err(ApiError);
    let (log, _) = run(&w, request(Command::Ban, Some(OWNER), Some(Some(MEMBER)), "/ban"));
    assert_eq!(log.last(), Some(&reply(BAN_FAILED, false)));
    assert!(!log.iter().any(|a| matches!(a, Action::RecordBan { .. })));
}

#[test]
fn a_failed_record_does_not_stop_the_ban() {
    let mut w = World::new();
    w.record = Err(DbError);
    let (log, ok) = run(&w, request(Command::Ban, Some(OWNER), Some(Some(MEMBER)), "/ban"));
    assert!(ok);
    assert_eq!(log[4], Action::DeleteMessage { chat_id: CHAT, message_id: 77 });
    assert_eq!(log.len(), 6);
}

#[test]
fn unban_is_for_staff() {
    let w = World::new();
    let (log, _) = run(&w, request(Command::Unban(SPAMMER as i64), Some(MEMBER), None, "/unban 4"));
    assert_eq!(log, vec![lookup(MEMBER), reply(STAFF_ONLY, false)]);
    let (log, ok) = run(&w, request(Command::Unban(SPAMMER as i64), Some(ADMIN), None, "/unban 4"));
    assert!(ok);
    assert_eq!(
        log,
        vec![
            lookup(ADMIN),
            Action::UnbanMember { chat_id: CHAT, user_id: SPAMMER },
            Action::ForgetBan { chat_id: CHAT, user_id: SPAMMER as i64 },
            reply(UNBANNED, false),
        ]
    );
}

#[test]
fn unban_outcomes() {
    let mut w = World::new();
    w.rows = Ok(0);
    let (log, _) = run(&w, request(Command::Unban(9), Some(OWNER), None, "/unban 9"));
    assert_eq!(log[3], reply(NOT_BANNED, false));
    w.telegram = Err(ApiError);
    let (log, _) = run(&w, request(Command::Unban(9), Some(OWNER), None, "/unban 9"));
    assert_eq!(log, vec![lookup(OWNER), Action::UnbanMember { chat_id: CHAT, user_id: 9 }, reply(UNBAN_FAILED, false)]);
    let mut w = World::new();
    w.rows = Err(DbError);
    let (log, _) = run(&w, request(Command::Unban(-1), Some(OWNER), None, "/unban -1"));
    assert_eq!(log[1], Action::UnbanMember { chat_id: CHAT, user_id: u64::MAX });
    assert_eq!(log[3], reply(INTERNAL_ERROR, false));
}

#[test]
fn a_reply_that_cannot_be_sent_fails_the_command() {
    let mut w = World::new();
    w.send = Err(ApiError);
    let (log, ok) = run(&w, request(Command::Help, Some(MEMBER), None, "/help"));
    assert!(!ok);
    assert_eq!(log.len(), 2);
}

#[test]
fn a_window_that_overflows_is_not_accepted() {
    let mut w = World::new();
    w.limits = Ok(Some((5, i64::MAX)));
    let req = request(Command::Ban, Some(ADMIN), Some(Some(MEMBER)), "/ban");
    let (mut flow, mut action) = Flow::start(req);
    while action != Action::ReadClock {
        let e = w.answer(&action);
        let (f, a) = flow.step(e);
        flow = f;
        action = a;
    }
    assert!(!flow.accepts(&Event::ClockRead(0)));
    assert!(!flow.accepts(&Event::RowsChanged(Ok(1))));
}

#[test]
fn events_must_answer_the_action() {
    let (flow, _) = Flow::start(request(Command::Help, Some(OWNER), None, "/help"));
    assert!(flow.accepts(&Event::RoleFound(Ok(None))));
    assert!(!flow.accepts(&Event::TelegramDone(Ok(()))));
    assert!(!flow.accepts(&Event::ClockRead(5)));
}
