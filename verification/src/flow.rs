//! The handling of one command, as a sequence of decisions.
//!
//! [`Flow::start`] takes a command message and gives the first [`Action`]; the
//! caller performs it (a database query, a Telegram call, a clock reading,
//! a reply) and hands the outcome back to [`Flow::step`] as an [`Event`], which
//! gives the next action, until [`Action::Finish`].

use vstd::prelude::*;
use crate::model::{
    full_name_of, mention_of, opt_text, reason_in, target_of, Command, Request, RequestView,
    UserInfo, UserView,
};
use crate::text::{decimal_i64, signed_decimal};

verus! {

pub const OWNER_HELP: &'static str = "Команды владельца:\n/help\n/giveadmin\n/removeadmin\n/ban\n/unban\n/report";
pub const ADMIN_HELP: &'static str = "Команды администратора:\n/help\n/ban\n/unban\n/report";
pub const USER_HELP: &'static str = "Команды:\n/help\n/report";
pub const OWNER_ONLY: &'static str = "Эта команда только для владельца";
pub const REPLY_TO_PERSON: &'static str = "Ответь этой командой на сообщение человека";
pub const NO_RIGHTS_FOR_BOTS: &'static str = "Боту права выдать нельзя";
pub const NOW_ADMIN: &'static str = " теперь администратор";
pub const ALREADY_ADMIN: &'static str = "Этот человек уже админ или владелец";
pub const INTERNAL_ERROR: &'static str = "Внутренняя ошибка, попробуй позже";
pub const NO_LONGER_ADMIN: &'static str = " больше не администратор";
pub const WAS_NOT_ADMIN: &'static str = "Он и не был админом";
pub const STAFF_ONLY: &'static str = "Эта команда только для админов и владельца";
pub const REPLY_TO_OFFENDER: &'static str = "Ответь этой командой на сообщение нарушителя";
pub const CANNOT_BAN_USER: &'static str = "Этого пользователя банить нельзя";
pub const CANNOT_BAN_STAFF: &'static str = "Админов и владельца банить нельзя";
pub const LIMIT_PREFIX: &'static str = "Лимит: не больше ";
pub const LIMIT_MIDDLE: &'static str = " банов за ";
pub const LIMIT_SUFFIX: &'static str = " ч";
pub const BAN_FAILED: &'static str = "Не удалось забанить. Бот должен быть админом с правом блокировать участников";
pub const BANNED: &'static str = " забанен";
pub const BANNED_FOR: &'static str = " забанен. Причина: ";
pub const UNBAN_FAILED: &'static str = "Не удалось разбанить в Telegram";
pub const UNBANNED: &'static str = "Пользователь разбанен";
pub const NOT_BANNED: &'static str = "Этого пользователя и не было в бане";

/// Bans an admin may issue per period where the chat has no settings.
pub const DEFAULT_ACTION_LIMIT: i64 = 5;
/// The length of that period, in hours.
pub const DEFAULT_PERIOD_HOURS: i64 = 6;

/// What a user is in a chat, by the role the database holds for them.
#[derive(Clone, Copy, PartialEq, Eq, Structural, Debug)]
pub enum RoleKind {
    Owner,
    Admin,
    /// No role, or one that is neither `owner` nor `admin`.
    Member,
}

/// A database query failed.
#[derive(Clone, Copy, PartialEq, Eq, Structural, Debug)]
pub struct DbError;

/// A Telegram request failed.
#[derive(Clone, Copy, PartialEq, Eq, Structural, Debug)]
pub struct ApiError;

/// The outcome of an [`Action`].
#[derive(Debug)]
pub enum Event {
    /// The role the database holds for the user asked about.
    RoleFound(Result<Option<String>, DbError>),
    /// The number of rows that an insert or delete changed.
    RowsChanged(Result<u64, DbError>),
    /// The chat's ban limit and its period in hours, where it has settings.
    LimitsFound(Result<Option<(i64, i64)>, DbError>),
    /// The current Unix time in seconds.
    ClockRead(i64),
    /// The number of bans counted.
    BansCounted(Result<i64, DbError>),
    /// Whether the ban could be written to the database.
    BanRecorded(Result<(), DbError>),
    /// Whether a Telegram request (ban, unban, delete, send) went through.
    TelegramDone(Result<(), ApiError>),
}

pub enum EventView {
    RoleFound(Result<Option<Seq<char>>, DbError>),
    RowsChanged(Result<u64, DbError>),
    LimitsFound(Result<Option<(i64, i64)>, DbError>),
    ClockRead(i64),
    BansCounted(Result<i64, DbError>),
    BanRecorded(Result<(), DbError>),
    TelegramDone(Result<(), ApiError>),
}

pub open spec fn role_result_view(r: Result<Option<String>, DbError>) -> Result<Option<Seq<char>>, DbError> {
    match r {
        Ok(o) => Ok(opt_text(o)),
        Err(e) => Err(e),
    }
}

impl View for Event {
    type V = EventView;

    open spec fn view(&self) -> EventView {
        match self {
            Event::RoleFound(r) => EventView::RoleFound(role_result_view(*r)),
            Event::RowsChanged(r) => EventView::RowsChanged(*r),
            Event::LimitsFound(r) => EventView::LimitsFound(*r),
            Event::ClockRead(t) => EventView::ClockRead(*t),
            Event::BansCounted(r) => EventView::BansCounted(*r),
            Event::BanRecorded(r) => EventView::BanRecorded(*r),
            Event::TelegramDone(r) => EventView::TelegramDone(*r),
        }
    }
}

/// What the caller is to do next.
#[derive(Debug, PartialEq, Eq)]
#[allow(inconsistent_fields)]
pub enum Action {
    /// Query the role of `user_id` in `chat_id`.
    LookupRole { chat_id: i64, user_id: i64 },
    /// Make the user an admin of the chat, unless they hold a role already.
    AddAdmin { chat_id: i64, user_id: i64 },
    /// Take the admin role from the user; an owner keeps theirs.
    RemoveAdmin { chat_id: i64, user_id: i64 },
    /// Query the chat's ban limit and period.
    GetLimits { chat_id: i64 },
    /// Read the clock.
    ReadClock,
    /// Count the bans that `admin_id` issued in the chat after `since`.
    CountBansSince { chat_id: i64, admin_id: i64, since: i64 },
    /// Ban the user from the chat in Telegram.
    BanMember { chat_id: i64, user_id: u64 },
    /// Write the ban to the database.
    RecordBan { chat_id: i64, user_id: i64, banned_by: i64, reason: Option<String> },
    /// Delete the offending message in Telegram.
    DeleteMessage { chat_id: i64, message_id: i32 },
    /// Lift the user's ban in Telegram.
    UnbanMember { chat_id: i64, user_id: u64 },
    /// Delete the user's ban from the database.
    ForgetBan { chat_id: i64, user_id: i64 },
    /// Send `text` to the chat, as HTML where `html` holds.
    SendText { chat_id: i64, text: String, html: bool },
    /// The command is handled; `ok` fails where the reply could not be sent.
    Finish { ok: bool },
}

#[allow(inconsistent_fields)]
pub enum ActionView {
    LookupRole { chat_id: i64, user_id: i64 },
    AddAdmin { chat_id: i64, user_id: i64 },
    RemoveAdmin { chat_id: i64, user_id: i64 },
    GetLimits { chat_id: i64 },
    ReadClock,
    CountBansSince { chat_id: i64, admin_id: i64, since: i64 },
    BanMember { chat_id: i64, user_id: u64 },
    RecordBan { chat_id: i64, user_id: i64, banned_by: i64, reason: Option<Seq<char>> },
    DeleteMessage { chat_id: i64, message_id: i32 },
    UnbanMember { chat_id: i64, user_id: u64 },
    ForgetBan { chat_id: i64, user_id: i64 },
    SendText { chat_id: i64, text: Seq<char>, html: bool },
    Finish { ok: bool },
}

impl View for Action {
    type V = ActionView;

    open spec fn view(&self) -> ActionView {
        match self {
            Action::LookupRole { chat_id, user_id } => ActionView::LookupRole {
                chat_id: *chat_id,
                user_id: *user_id,
            },
            Action::AddAdmin { chat_id, user_id } => ActionView::AddAdmin {
                chat_id: *chat_id,
                user_id: *user_id,
            },
            Action::RemoveAdmin { chat_id, user_id } => ActionView::RemoveAdmin {
                chat_id: *chat_id,
                user_id: *user_id,
            },
            Action::GetLimits { chat_id } => ActionView::GetLimits { chat_id: *chat_id },
            Action::ReadClock => ActionView::ReadClock,
            Action::CountBansSince { chat_id, admin_id, since } => ActionView::CountBansSince {
                chat_id: *chat_id,
                admin_id: *admin_id,
                since: *since,
            },
            Action::BanMember { chat_id, user_id } => ActionView::BanMember {
                chat_id: *chat_id,
                user_id: *user_id,
            },
            Action::RecordBan { chat_id, user_id, banned_by, reason } => ActionView::RecordBan {
                chat_id: *chat_id,
                user_id: *user_id,
                banned_by: *banned_by,
                reason: opt_text(*reason),
            },
            Action::DeleteMessage { chat_id, message_id } => ActionView::DeleteMessage {
                chat_id: *chat_id,
                message_id: *message_id,
            },
            Action::UnbanMember { chat_id, user_id } => ActionView::UnbanMember {
                chat_id: *chat_id,
                user_id: *user_id,
            },
            Action::ForgetBan { chat_id, user_id } => ActionView::ForgetBan {
                chat_id: *chat_id,
                user_id: *user_id,
            },
            Action::SendText { chat_id, text, html } => ActionView::SendText {
                chat_id: *chat_id,
                text: text@,
                html: *html,
            },
            Action::Finish { ok } => ActionView::Finish { ok: *ok },
        }
    }
}

/// Where a flow stands: the outcome it waits for.
#[derive(Clone, Copy, PartialEq, Eq, Structural, Debug)]
pub enum Stage {
    AwaitRequesterRole,
    AwaitTargetRole,
    AwaitLimits,
    AwaitClock { limit: i64, hours: i64 },
    AwaitBanCount { limit: i64, hours: i64 },
    AwaitBanMember,
    AwaitBanRecord,
    AwaitDelete,
    AwaitUnbanMember,
    AwaitRowsChanged,
    AwaitSent,
    Finished { ok: bool },
}

/// The handling of one command.
#[derive(Debug)]
pub struct Flow {
    pub request: Request,
    pub stage: Stage,
    /// The requester's role, once looked up.
    pub role: RoleKind,
    /// The ban target was found to hold no role.
    pub target_clear: bool,
    /// For an admin's ban: the admin's bans counted in the period, and the
    /// limit they were held to.
    pub quota: Option<(i64, i64)>,
}

pub struct FlowView {
    pub request: RequestView,
    pub stage: Stage,
    pub role: RoleKind,
    pub target_clear: bool,
    pub quota: Option<(i64, i64)>,
}

impl View for Flow {
    type V = FlowView;

    open spec fn view(&self) -> FlowView {
        FlowView {
            request: self.request@,
            stage: self.stage,
            role: self.role,
            target_clear: self.target_clear,
            quota: self.quota,
        }
    }
}

/// The role that the database's answer names.
pub open spec fn role_kind(role: Option<Seq<char>>) -> RoleKind {
    match role {
        Some(r) => if r == "owner"@ {
            RoleKind::Owner
        } else if r == "admin"@ {
            RoleKind::Admin
        } else {
            RoleKind::Member
        },
        None => RoleKind::Member,
    }
}

/// The role that a role lookup gives: a failed query counts as no role.
pub open spec fn looked_up_role(r: Result<Option<Seq<char>>, DbError>) -> RoleKind {
    match r {
        Ok(o) => role_kind(o),
        Err(_) => RoleKind::Member,
    }
}

pub open spec fn is_staff(k: RoleKind) -> bool {
    k == RoleKind::Owner || k == RoleKind::Admin
}

/// The help text for a role.
pub open spec fn help_text(k: RoleKind) -> Seq<char> {
    match k {
        RoleKind::Owner => OWNER_HELP@,
        RoleKind::Admin => ADMIN_HELP@,
        RoleKind::Member => USER_HELP@,
    }
}

/// The answer to an admin who reached the limit.
pub open spec fn limit_text(limit: i64, hours: i64) -> Seq<char> {
    LIMIT_PREFIX@ + signed_decimal(limit as int) + LIMIT_MIDDLE@ + signed_decimal(hours as int)
        + LIMIT_SUFFIX@
}

/// The announcement of a ban.
pub open spec fn ban_text(target: UserView, reason: Option<Seq<char>>) -> Seq<char> {
    match reason {
        Some(r) => mention_of(target) + BANNED_FOR@ + r,
        None => mention_of(target) + BANNED@,
    }
}

/// The start of a window of `hours` hours that ends at `now`.
pub open spec fn window_start(now: i64, hours: i64) -> int {
    now - hours * 3600
}

pub open spec fn requester(f: FlowView) -> UserView {
    f.request.from->0
}

pub open spec fn target(f: FlowView) -> UserView {
    target_of(f.request)->0
}

pub open spec fn say(f: FlowView, text: Seq<char>, html: bool) -> (FlowView, ActionView) {
    (
        FlowView { stage: Stage::AwaitSent, ..f },
        ActionView::SendText { chat_id: f.request.chat_id, text, html },
    )
}

pub open spec fn finish(f: FlowView, ok: bool) -> (FlowView, ActionView) {
    (FlowView { stage: Stage::Finished { ok }, ..f }, ActionView::Finish { ok })
}

pub open spec fn go(f: FlowView, stage: Stage, a: ActionView) -> (FlowView, ActionView) {
    (FlowView { stage, ..f }, a)
}

/// How a flow begins: nothing is done for a message without an author;
/// otherwise the author's role is looked up.
pub open spec fn start_of(r: RequestView) -> (FlowView, ActionView) {
    let f = FlowView {
        request: r,
        stage: Stage::AwaitRequesterRole,
        role: RoleKind::Member,
        target_clear: false,
        quota: None,
    };
    match r.from {
        None => finish(f, true),
        Some(u) => (f, ActionView::LookupRole { chat_id: r.chat_id, user_id: u.id as i64 }),
    }
}

/// The decision once the requester's role is known.
pub open spec fn on_requester_role(f0: FlowView, r: Result<Option<Seq<char>>, DbError>) -> (
    FlowView,
    ActionView,
) {
    let role = looked_up_role(r);
    let f = FlowView { role, ..f0 };
    let chat = f.request.chat_id;
    match f.request.command {
        Command::Help => say(f, help_text(role), false),
        Command::GiveAdmin => if role != RoleKind::Owner {
            say(f, OWNER_ONLY@, false)
        } else {
            match target_of(f.request) {
                None => say(f, REPLY_TO_PERSON@, false),
                Some(t) => if t.is_bot {
                    say(f, NO_RIGHTS_FOR_BOTS@, false)
                } else {
                    go(
                        f,
                        Stage::AwaitRowsChanged,
                        ActionView::AddAdmin { chat_id: chat, user_id: t.id as i64 },
                    )
                },
            }
        },
        Command::RemoveAdmin => if role != RoleKind::Owner {
            say(f, OWNER_ONLY@, false)
        } else {
            match target_of(f.request) {
                None => say(f, REPLY_TO_PERSON@, false),
                Some(t) => go(
                    f,
                    Stage::AwaitRowsChanged,
                    ActionView::RemoveAdmin { chat_id: chat, user_id: t.id as i64 },
                ),
            }
        },
        Command::Ban => if !is_staff(role) {
            say(f, STAFF_ONLY@, false)
        } else {
            match f.request.reply_to {
                None => say(f, REPLY_TO_OFFENDER@, false),
                Some(reply) => match reply.from {
                    None => finish(f, true),
                    Some(t) => if t.is_bot || t.id == requester(f).id {
                        say(f, CANNOT_BAN_USER@, false)
                    } else {
                        go(
                            f,
                            Stage::AwaitTargetRole,
                            ActionView::LookupRole { chat_id: chat, user_id: t.id as i64 },
                        )
                    },
                },
            }
        },
        Command::Unban(user_id) => if !is_staff(role) {
            say(f, STAFF_ONLY@, false)
        } else {
            go(
                f,
                Stage::AwaitUnbanMember,
                ActionView::UnbanMember { chat_id: chat, user_id: user_id as u64 },
            )
        },
    }
}

/// The decision once the ban target's role is known: anyone with a role is
/// spared; the owner bans at once; an admin's limits are looked up.
pub open spec fn on_target_role(f0: FlowView, r: Result<Option<Seq<char>>, DbError>) -> (
    FlowView,
    ActionView,
) {
    let chat = f0.request.chat_id;
    if r matches Ok(Some(_)) {
        say(f0, CANNOT_BAN_STAFF@, false)
    } else {
        let f = FlowView { target_clear: true, ..f0 };
        if f.role == RoleKind::Owner {
            go(f, Stage::AwaitBanMember, ActionView::BanMember { chat_id: chat, user_id: target(f).id })
        } else {
            go(f, Stage::AwaitLimits, ActionView::GetLimits { chat_id: chat })
        }
    }
}

/// The decision once the chat's limits are known; a chat without settings
/// has the default ones.
pub open spec fn on_limits(f: FlowView, r: Result<Option<(i64, i64)>, DbError>) -> (
    FlowView,
    ActionView,
) {
    match r {
        Err(_) => say(f, INTERNAL_ERROR@, false),
        Ok(o) => {
            let (limit, hours) = match o {
                Some(p) => p,
                None => (DEFAULT_ACTION_LIMIT, DEFAULT_PERIOD_HOURS),
            };
            go(f, Stage::AwaitClock { limit, hours }, ActionView::ReadClock)
        },
    }
}

/// The decision once the time is known: count the requester's bans in the
/// period that ends now.
pub open spec fn on_clock(f: FlowView, limit: i64, hours: i64, now: i64) -> (FlowView, ActionView) {
    go(
        f,
        Stage::AwaitBanCount { limit, hours },
        ActionView::CountBansSince {
            chat_id: f.request.chat_id,
            admin_id: requester(f).id as i64,
            since: window_start(now, hours) as i64,
        },
    )
}

/// The decision once the requester's recent bans are counted.
pub open spec fn on_ban_count(f: FlowView, limit: i64, hours: i64, r: Result<i64, DbError>) -> (
    FlowView,
    ActionView,
) {
    match r {
        Err(_) => say(f, INTERNAL_ERROR@, false),
        Ok(n) => if n >= limit {
            say(f, limit_text(limit, hours), false)
        } else {
            go(
                FlowView { quota: Some((n, limit)), ..f },
                Stage::AwaitBanMember,
                ActionView::BanMember { chat_id: f.request.chat_id, user_id: target(f).id },
            )
        },
    }
}

/// The decision once Telegram answered the ban.
pub open spec fn on_ban_member(f: FlowView, r: Result<(), ApiError>) -> (FlowView, ActionView) {
    match r {
        Err(_) => say(f, BAN_FAILED@, false),
        Ok(_) => go(
            f,
            Stage::AwaitBanRecord,
            ActionView::RecordBan {
                chat_id: f.request.chat_id,
                user_id: target(f).id as i64,
                banned_by: requester(f).id as i64,
                reason: reason_in(f.request.text),
            },
        ),
    }
}

/// After the ban is recorded, or failed to be: delete the offending message.
pub open spec fn on_ban_recorded(f: FlowView) -> (FlowView, ActionView) {
    go(
        f,
        Stage::AwaitDelete,
        ActionView::DeleteMessage {
            chat_id: f.request.chat_id,
            message_id: f.request.reply_to->0.message_id,
        },
    )
}

/// After the deletion, whatever came of it: announce the ban.
pub open spec fn on_deleted(f: FlowView) -> (FlowView, ActionView) {
    say(f, ban_text(target(f), reason_in(f.request.text)), true)
}

/// The decision once Telegram answered the unban.
pub open spec fn on_unban_member(f: FlowView, r: Result<(), ApiError>) -> (FlowView, ActionView) {
    match r {
        Err(_) => say(f, UNBAN_FAILED@, false),
        Ok(_) => match f.request.command {
            Command::Unban(user_id) => go(
                f,
                Stage::AwaitRowsChanged,
                ActionView::ForgetBan { chat_id: f.request.chat_id, user_id },
            ),
            _ => finish(f, true),
        },
    }
}

/// The answer once the database changed, or did not.
pub open spec fn on_rows_changed(f: FlowView, r: Result<u64, DbError>) -> (FlowView, ActionView) {
    match f.request.command {
        Command::GiveAdmin => say(
            f,
            match r {
                Ok(n) => if n > 0 {
                    mention_of(target(f)) + NOW_ADMIN@
                } else {
                    ALREADY_ADMIN@
                },
                Err(_) => INTERNAL_ERROR@,
            },
            true,
        ),
        Command::RemoveAdmin => say(
            f,
            match r {
                Ok(n) => if n > 0 {
                    full_name_of(target(f)) + NO_LONGER_ADMIN@
                } else {
                    WAS_NOT_ADMIN@
                },
                Err(_) => INTERNAL_ERROR@,
            },
            false,
        ),
        Command::Unban(_) => say(
            f,
            match r {
                Ok(n) => if n > 0 {
                    UNBANNED@
                } else {
                    NOT_BANNED@
                },
                Err(_) => INTERNAL_ERROR@,
            },
            false,
        ),
        _ => finish(f, true),
    }
}

/// Whether `e` is the kind of outcome that a flow at `stage` waits for; for a
/// clock reading, also that the start of the window fits in an `i64`.
pub open spec fn fits(stage: Stage, e: EventView) -> bool {
    match stage {
        Stage::AwaitRequesterRole => e is RoleFound,
        Stage::AwaitTargetRole => e is RoleFound,
        Stage::AwaitLimits => e is LimitsFound,
        Stage::AwaitClock { limit, hours } => match e {
            EventView::ClockRead(now) => i64::MIN <= hours * 3600 <= i64::MAX && i64::MIN
                <= window_start(now, hours) <= i64::MAX,
            _ => false,
        },
        Stage::AwaitBanCount { .. } => e is BansCounted,
        Stage::AwaitBanMember => e is TelegramDone,
        Stage::AwaitBanRecord => e is BanRecorded,
        Stage::AwaitDelete => e is TelegramDone,
        Stage::AwaitUnbanMember => e is TelegramDone,
        Stage::AwaitRowsChanged => e is RowsChanged,
        Stage::AwaitSent => e is TelegramDone,
        Stage::Finished { .. } => false,
    }
}

/// The next state and action of a flow, given the outcome it waited for.
pub open spec fn next(f: FlowView, e: EventView) -> (FlowView, ActionView) {
    match (f.stage, e) {
        (Stage::AwaitRequesterRole, EventView::RoleFound(r)) => on_requester_role(f, r),
        (Stage::AwaitTargetRole, EventView::RoleFound(r)) => on_target_role(f, r),
        (Stage::AwaitLimits, EventView::LimitsFound(r)) => on_limits(f, r),
        (Stage::AwaitClock { limit, hours }, EventView::ClockRead(now)) => on_clock(
            f,
            limit,
            hours,
            now,
        ),
        (Stage::AwaitBanCount { limit, hours }, EventView::BansCounted(r)) => on_ban_count(
            f,
            limit,
            hours,
            r,
        ),
        (Stage::AwaitBanMember, EventView::TelegramDone(r)) => on_ban_member(f, r),
        (Stage::AwaitBanRecord, EventView::BanRecorded(_)) => on_ban_recorded(f),
        (Stage::AwaitDelete, EventView::TelegramDone(_)) => on_deleted(f),
        (Stage::AwaitUnbanMember, EventView::TelegramDone(r)) => on_unban_member(f, r),
        (Stage::AwaitRowsChanged, EventView::RowsChanged(r)) => on_rows_changed(f, r),
        (Stage::AwaitSent, EventView::TelegramDone(r)) => finish(f, r is Ok),
        _ => finish(f, false),
    }
}

/// A ban request whose target may be banned as far as the message shows:
/// it answers a message whose author is neither a bot nor the requester.
pub open spec fn bannable_target(r: RequestView) -> bool {
    &&& r.command == Command::Ban
    &&& r.from is Some
    &&& target_of(r) is Some
    &&& !target_of(r)->0.is_bot
    &&& target_of(r)->0.id != r.from->0.id
}

/// A counted number of bans below the limit.
pub open spec fn under_limit(quota: Option<(i64, i64)>) -> bool {
    match quota {
        Some((n, limit)) => n < limit,
        None => false,
    }
}

/// The command answers a message whose author is no bot.
pub open spec fn human_target(r: RequestView) -> bool {
    match target_of(r) {
        Some(t) => !t.is_bot,
        None => false,
    }
}

/// What holds of a flow at each stage, by the outcomes that led there.
pub open spec fn wf(f: FlowView) -> bool {
    match f.stage {
        Stage::AwaitRequesterRole => f.request.from is Some && f.role == RoleKind::Member
            && !f.target_clear && f.quota is None,
        Stage::AwaitTargetRole => bannable_target(f.request) && is_staff(f.role) && !f.target_clear
            && f.quota is None,
        Stage::AwaitLimits | Stage::AwaitClock { .. } | Stage::AwaitBanCount { .. } => bannable_target(
            f.request,
        ) && f.role == RoleKind::Admin && f.target_clear && f.quota is None,
        Stage::AwaitBanMember | Stage::AwaitBanRecord | Stage::AwaitDelete => {
            &&& bannable_target(f.request)
            &&& f.target_clear
            &&& (f.role == RoleKind::Owner && f.quota is None) || (f.role == RoleKind::Admin
                && under_limit(f.quota))
        },
        Stage::AwaitUnbanMember => f.request.command is Unban && f.request.from is Some && is_staff(
            f.role,
        ),
        Stage::AwaitRowsChanged => f.request.from is Some && match f.request.command {
            Command::GiveAdmin => f.role == RoleKind::Owner && human_target(f.request),
            Command::RemoveAdmin => f.role == RoleKind::Owner && target_of(f.request) is Some,
            Command::Unban(_) => is_staff(f.role),
            _ => false,
        },
        Stage::AwaitSent => true,
        Stage::Finished { .. } => true,
    }
}

/// The kind of role that the database's answer names.
pub fn classify_role(role: &Option<String>) -> (k: RoleKind)
    ensures
        k == role_kind(opt_text(*role)),
{
    match role {
        Some(r) => {
            let owner = "owner".to_owned();
            let admin = "admin".to_owned();
            if *r == owner {
                RoleKind::Owner
            } else if *r == admin {
                RoleKind::Admin
            } else {
                RoleKind::Member
            }
        },
        None => RoleKind::Member,
    }
}

/// The id and bot flag of the author of the message that `r` answers.
fn target_facts(r: &Request) -> (res: Option<(u64, bool)>)
    ensures
        match target_of(r@) {
            Some(t) => res == Some((t.id, t.is_bot)),
            None => res is None,
        },
{
    match &r.reply_to {
        Some(reply) => match &reply.from {
            Some(t) => Some((t.id, t.is_bot)),
            None => None,
        },
        None => None,
    }
}

impl Flow {
    fn requester_id(&self) -> (id: u64)
        requires
            self@.request.from is Some,
        ensures
            id == requester(self@).id,
    {
        match &self.request.from {
            Some(u) => u.id,
            None => vstd::pervasive::unreached(),
        }
    }

    fn target_user(&self) -> (u: &UserInfo)
        requires
            target_of(self@.request) is Some,
        ensures
            u@ == target(self@),
    {
        match &self.request.reply_to {
            Some(reply) => match &reply.from {
                Some(t) => t,
                None => vstd::pervasive::unreached(),
            },
            None => vstd::pervasive::unreached(),
        }
    }

    fn say(self, text: String, html: bool) -> (res: (Flow, Action))
        ensures
            (res.0@, res.1@) == say(self@, text@, html),
    {
        let chat_id = self.request.chat_id;
        (Flow { stage: Stage::AwaitSent, ..self }, Action::SendText { chat_id, text, html })
    }

    fn finish(self, ok: bool) -> (res: (Flow, Action))
        ensures
            (res.0@, res.1@) == finish(self@, ok),
    {
        (Flow { stage: Stage::Finished { ok }, ..self }, Action::Finish { ok })
    }

    fn go(self, stage: Stage, a: Action) -> (res: (Flow, Action))
        ensures
            (res.0@, res.1@) == go(self@, stage, a@),
    {
        (Flow { stage, ..self }, a)
    }

    /// Begins the handling of a command message.
    pub fn start(request: Request) -> (res: (Flow, Action))
        ensures
            (res.0@, res.1@) == start_of(request@),
            wf(res.0@),
    {
        let chat_id = request.chat_id;
        let from_id = match &request.from {
            Some(u) => Some(u.id),
            None => None,
        };
        let f = Flow {
            request,
            stage: Stage::AwaitRequesterRole,
            role: RoleKind::Member,
            target_clear: false,
            quota: None,
        };
        match from_id {
            None => f.finish(true),
            Some(id) => (f, Action::LookupRole { chat_id, user_id: id as i64 }),
        }
    }

    fn on_requester_role(self, r: Result<Option<String>, DbError>) -> (res: (Flow, Action))
        requires
            wf(self@),
            self@.stage == Stage::AwaitRequesterRole,
        ensures
            (res.0@, res.1@) == on_requester_role(self@, role_result_view(r)),
    {
        let role = match &r {
            Ok(o) => classify_role(o),
            Err(_) => RoleKind::Member,
        };
        let chat_id = self.request.chat_id;
        let target = target_facts(&self.request);
        let me = self.requester_id();
        let answers_message = self.request.reply_to.is_some();
        let command = self.request.command;
        let f = Flow { role, ..self };
        match command {
            Command::Help => {
                let text = match role {
                    RoleKind::Owner => OWNER_HELP.to_owned(),
                    RoleKind::Admin => ADMIN_HELP.to_owned(),
                    RoleKind::Member => USER_HELP.to_owned(),
                };
                f.say(text, false)
            },
            Command::GiveAdmin => {
                if role != RoleKind::Owner {
                    return f.say(OWNER_ONLY.to_owned(), false);
                }
                match target {
                    None => f.say(REPLY_TO_PERSON.to_owned(), false),
                    Some((id, is_bot)) => if is_bot {
                        f.say(NO_RIGHTS_FOR_BOTS.to_owned(), false)
                    } else {
                        f.go(Stage::AwaitRowsChanged, Action::AddAdmin { chat_id, user_id: id as i64 })
                    },
                }
            },
            Command::RemoveAdmin => {
                if role != RoleKind::Owner {
                    return f.say(OWNER_ONLY.to_owned(), false);
                }
                match target {
                    None => f.say(REPLY_TO_PERSON.to_owned(), false),
                    Some((id, _)) => f.go(
                        Stage::AwaitRowsChanged,
                        Action::RemoveAdmin { chat_id, user_id: id as i64 },
                    ),
                }
            },
            Command::Ban => {
                if !(role == RoleKind::Owner || role == RoleKind::Admin) {
                    return f.say(STAFF_ONLY.to_owned(), false);
                }
                if !answers_message {
                    return f.say(REPLY_TO_OFFENDER.to_owned(), false);
                }
                match target {
                    None => f.finish(true),
                    Some((id, is_bot)) => if is_bot || id == me {
                        f.say(CANNOT_BAN_USER.to_owned(), false)
                    } else {
                        f.go(Stage::AwaitTargetRole, Action::LookupRole { chat_id, user_id: id as i64 })
                    },
                }
            },
            Command::Unban(user_id) => {
                if !(role == RoleKind::Owner || role == RoleKind::Admin) {
                    return f.say(STAFF_ONLY.to_owned(), false);
                }
                f.go(Stage::AwaitUnbanMember, Action::UnbanMember { chat_id, user_id: user_id as u64 })
            },
        }
    }

    fn on_target_role(self, r: Result<Option<String>, DbError>) -> (res: (Flow, Action))
        requires
            wf(self@),
            self@.stage == Stage::AwaitTargetRole,
        ensures
            (res.0@, res.1@) == on_target_role(self@, role_result_view(r)),
    {
        let has_role = match &r {
            Ok(Some(_)) => true,
            _ => false,
        };
        if has_role {
            return self.say(CANNOT_BAN_STAFF.to_owned(), false);
        }
        let chat_id = self.request.chat_id;
        let user_id = self.target_user().id;
        let f = Flow { target_clear: true, ..self };
        if f.role == RoleKind::Owner {
            f.go(Stage::AwaitBanMember, Action::BanMember { chat_id, user_id })
        } else {
            f.go(Stage::AwaitLimits, Action::GetLimits { chat_id })
        }
    }

    fn on_limits(self, r: Result<Option<(i64, i64)>, DbError>) -> (res: (Flow, Action))
        ensures
            (res.0@, res.1@) == on_limits(self@, r),
    {
        match r {
            Err(_) => self.say(INTERNAL_ERROR.to_owned(), false),
            Ok(o) => {
                let (limit, hours) = match o {
                    Some(p) => p,
                    None => (DEFAULT_ACTION_LIMIT, DEFAULT_PERIOD_HOURS),
                };
                self.go(Stage::AwaitClock { limit, hours }, Action::ReadClock)
            },
        }
    }

    fn on_clock(self, limit: i64, hours: i64, now: i64) -> (res: (Flow, Action))
        requires
            wf(self@),
            self@.stage == (Stage::AwaitClock { limit, hours }),
            i64::MIN <= hours * 3600 <= i64::MAX,
            i64::MIN <= window_start(now, hours) <= i64::MAX,
        ensures
            (res.0@, res.1@) == on_clock(self@, limit, hours, now),
    {
        let since = now - hours * 3600;
        let chat_id = self.request.chat_id;
        let admin_id = self.requester_id() as i64;
        self.go(Stage::AwaitBanCount { limit, hours }, Action::CountBansSince { chat_id, admin_id, since })
    }

    fn on_ban_count(self, limit: i64, hours: i64, r: Result<i64, DbError>) -> (res: (Flow, Action))
        requires
            wf(self@),
            self@.stage == (Stage::AwaitBanCount { limit, hours }),
        ensures
            (res.0@, res.1@) == on_ban_count(self@, limit, hours, r),
    {
        match r {
            Err(_) => self.say(INTERNAL_ERROR.to_owned(), false),
            Ok(n) => if n >= limit {
                let mut text = LIMIT_PREFIX.to_owned();
                text.append(decimal_i64(limit).as_str());
                text.append(LIMIT_MIDDLE);
                text.append(decimal_i64(hours).as_str());
                text.append(LIMIT_SUFFIX);
                self.say(text, false)
            } else {
                let chat_id = self.request.chat_id;
                let user_id = self.target_user().id;
                let f = Flow { quota: Some((n, limit)), ..self };
                f.go(Stage::AwaitBanMember, Action::BanMember { chat_id, user_id })
            },
        }
    }

    fn on_ban_member(self, r: Result<(), ApiError>) -> (res: (Flow, Action))
        requires
            wf(self@),
            self@.stage == Stage::AwaitBanMember,
        ensures
            (res.0@, res.1@) == on_ban_member(self@, r),
    {
        match r {
            Err(_) => self.say(BAN_FAILED.to_owned(), false),
            Ok(_) => {
                let chat_id = self.request.chat_id;
                let user_id = self.target_user().id as i64;
                let banned_by = self.requester_id() as i64;
                let reason = self.request.reason();
                self.go(Stage::AwaitBanRecord, Action::RecordBan { chat_id, user_id, banned_by, reason })
            },
        }
    }

    fn on_ban_recorded(self) -> (res: (Flow, Action))
        requires
            wf(self@),
            self@.stage == Stage::AwaitBanRecord,
        ensures
            (res.0@, res.1@) == on_ban_recorded(self@),
    {
        let chat_id = self.request.chat_id;
        let message_id = match &self.request.reply_to {
            Some(reply) => reply.message_id,
            None => vstd::pervasive::unreached(),
        };
        self.go(Stage::AwaitDelete, Action::DeleteMessage { chat_id, message_id })
    }

    fn on_deleted(self) -> (res: (Flow, Action))
        requires
            wf(self@),
            self@.stage == Stage::AwaitDelete,
        ensures
            (res.0@, res.1@) == on_deleted(self@),
    {
        let mut text = self.target_user().mention();
        match self.request.reason() {
            Some(reason) => {
                text.append(BANNED_FOR);
                text.append(reason.as_str());
            },
            None => {
                text.append(BANNED);
            },
        }
        self.say(text, true)
    }

    fn on_unban_member(self, r: Result<(), ApiError>) -> (res: (Flow, Action))
        ensures
            (res.0@, res.1@) == on_unban_member(self@, r),
    {
        match r {
            Err(_) => self.say(UNBAN_FAILED.to_owned(), false),
            Ok(_) => match self.request.command {
                Command::Unban(user_id) => {
                    let chat_id = self.request.chat_id;
                    self.go(Stage::AwaitRowsChanged, Action::ForgetBan { chat_id, user_id })
                },
                _ => self.finish(true),
            },
        }
    }

    fn on_rows_changed(self, r: Result<u64, DbError>) -> (res: (Flow, Action))
        requires
            wf(self@),
            self@.stage == Stage::AwaitRowsChanged,
        ensures
            (res.0@, res.1@) == on_rows_changed(self@, r),
    {
        match self.request.command {
            Command::GiveAdmin => {
                let text = match r {
                    Ok(n) => if n > 0 {
                        let mut t = self.target_user().mention();
                        t.append(NOW_ADMIN);
                        t
                    } else {
                        ALREADY_ADMIN.to_owned()
                    },
                    Err(_) => INTERNAL_ERROR.to_owned(),
                };
                self.say(text, true)
            },
            Command::RemoveAdmin => {
                let text = match r {
                    Ok(n) => if n > 0 {
                        let mut t = self.target_user().full_name();
                        t.append(NO_LONGER_ADMIN);
                        t
                    } else {
                        WAS_NOT_ADMIN.to_owned()
                    },
                    Err(_) => INTERNAL_ERROR.to_owned(),
                };
                self.say(text, false)
            },
            Command::Unban(_) => {
                let text = match r {
                    Ok(n) => if n > 0 {
                        UNBANNED.to_owned()
                    } else {
                        NOT_BANNED.to_owned()
                    },
                    Err(_) => INTERNAL_ERROR.to_owned(),
                };
                self.say(text, false)
            },
            _ => self.finish(true),
        }
    }

    /// Whether `e` is an outcome that this flow waits for, and, for a clock
    /// reading, one from which the start of the window can be computed.
    pub fn accepts(&self, e: &Event) -> (r: bool)
        ensures
            r == fits(self@.stage, e@),
    {
        match (self.stage, e) {
            (Stage::AwaitRequesterRole, Event::RoleFound(_)) => true,
            (Stage::AwaitTargetRole, Event::RoleFound(_)) => true,
            (Stage::AwaitLimits, Event::LimitsFound(_)) => true,
            (Stage::AwaitClock { limit: _, hours }, Event::ClockRead(now)) => {
                match hours.checked_mul(3600) {
                    Some(span) => now.checked_sub(span).is_some(),
                    None => false,
                }
            },
            (Stage::AwaitBanCount { .. }, Event::BansCounted(_)) => true,
            (Stage::AwaitBanMember, Event::TelegramDone(_)) => true,
            (Stage::AwaitBanRecord, Event::BanRecorded(_)) => true,
            (Stage::AwaitDelete, Event::TelegramDone(_)) => true,
            (Stage::AwaitUnbanMember, Event::TelegramDone(_)) => true,
            (Stage::AwaitRowsChanged, Event::RowsChanged(_)) => true,
            (Stage::AwaitSent, Event::TelegramDone(_)) => true,
            _ => false,
        }
    }

    /// Takes the outcome of the last action and gives the next one.
    pub fn step(self, e: Event) -> (res: (Flow, Action))
        requires
            wf(self@),
            fits(self@.stage, e@),
        ensures
            (res.0@, res.1@) == next(self@, e@),
            wf(res.0@),
    {
        let ghost before = self@;
        let ghost event = e@;
        let res = match e {
            Event::RoleFound(r) => if self.stage == Stage::AwaitRequesterRole {
                self.on_requester_role(r)
            } else {
                self.on_target_role(r)
            },
            Event::LimitsFound(r) => self.on_limits(r),
            Event::ClockRead(now) => match self.stage {
                Stage::AwaitClock { limit, hours } => self.on_clock(limit, hours, now),
                _ => self.finish(false),
            },
            Event::BansCounted(r) => match self.stage {
                Stage::AwaitBanCount { limit, hours } => self.on_ban_count(limit, hours, r),
                _ => self.finish(false),
            },
            Event::BanRecorded(_) => self.on_ban_recorded(),
            Event::RowsChanged(r) => self.on_rows_changed(r),
            Event::TelegramDone(r) => match self.stage {
                Stage::AwaitBanMember => self.on_ban_member(r),
                Stage::AwaitDelete => self.on_deleted(),
                Stage::AwaitUnbanMember => self.on_unban_member(r),
                _ => {
                    let ok = match r {
                        Ok(_) => true,
                        Err(_) => false,
                    };
                    self.finish(ok)
                },
            },
        };
        proof {
            lemma_next_keeps_wf(before, event);
        }
        res
    }
}

/// Every step keeps what holds of a flow at each stage.
pub proof fn lemma_next_keeps_wf(f: FlowView, e: EventView)
    requires
        wf(f),
        fits(f.stage, e),
    ensures
        wf(next(f, e).0),
{
}

} // verus!
