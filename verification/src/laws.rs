//! What holds of every command's handling, whatever the outcomes of the
//! outside calls.

use vstd::prelude::*;
use crate::flow::{
    bannable_target, fits, human_target, is_staff, looked_up_role, next, requester, start_of,
    target, under_limit, wf, ActionView, DbError, EventView, FlowView, RoleKind, Stage,
    ADMIN_HELP, ALREADY_ADMIN, BAN_FAILED, BANNED, BANNED_FOR, NOT_BANNED, NO_LONGER_ADMIN,
    UNBANNED, WAS_NOT_ADMIN, CANNOT_BAN_STAFF, CANNOT_BAN_USER, DEFAULT_ACTION_LIMIT,
    DEFAULT_PERIOD_HOURS, INTERNAL_ERROR, NOW_ADMIN, NO_RIGHTS_FOR_BOTS, OWNER_HELP, OWNER_ONLY,
    REPLY_TO_OFFENDER, REPLY_TO_PERSON, STAFF_ONLY, UNBAN_FAILED, USER_HELP, LIMIT_PREFIX,
    LIMIT_MIDDLE, LIMIT_SUFFIX,
};
use crate::model::{full_name_of, mention_of, reason_in, target_of, Command, RequestView};
use crate::config::{all_digits, digits_value, is_digit, parse_i64_value};
use crate::text::{
    decimal, digit_char, escape_char, escape_html, is_white_space, lemma_first_white_space,
    signed_decimal, trim, trim_end, trim_start, words_after_first,
};

verus! {

/// How far a flow at `s` is from its end: every step lowers it.
pub open spec fn stage_rank(s: Stage) -> nat {
    match s {
        Stage::AwaitRequesterRole => 11,
        Stage::AwaitTargetRole => 10,
        Stage::AwaitLimits => 9,
        Stage::AwaitClock { .. } => 8,
        Stage::AwaitBanCount { .. } => 7,
        Stage::AwaitBanMember => 6,
        Stage::AwaitBanRecord => 5,
        Stage::AwaitDelete => 4,
        Stage::AwaitUnbanMember => 3,
        Stage::AwaitRowsChanged => 2,
        Stage::AwaitSent => 1,
        Stage::Finished { .. } => 0,
    }
}

/// Every flow begins well formed.
pub proof fn law_start_well_formed(r: RequestView)
    ensures
        wf(start_of(r).0),
        stage_rank(start_of(r).0.stage) <= 11,
{
}

/// Handling a command ends: every step brings the flow closer to its end, so
/// a command takes at most eleven outside calls; and a flow announces
/// `Finish` exactly when it has finished.
pub proof fn law_steps_make_progress(f: FlowView, e: EventView)
    requires
        wf(f),
        fits(f.stage, e),
    ensures
        stage_rank(next(f, e).0.stage) < stage_rank(f.stage),
        (next(f, e).1 is Finish) == (next(f, e).0.stage is Finished),
{
}

/// A flow starts with no outside call only for a message without an author,
/// and otherwise with the lookup of the author's role; it finishes at once
/// exactly when that lookup is skipped.
pub proof fn law_start_looks_up_requester(r: RequestView)
    ensures
        (start_of(r).1 is Finish) == (r.from is None),
        r.from matches Some(u) ==> start_of(r).1 == (ActionView::LookupRole {
            chat_id: r.chat_id,
            user_id: u.id as i64,
        }),
{
}

/// The bot answers a command at most once: a reply leads only to the end of
/// the flow.
pub proof fn law_one_reply(f: FlowView, e: EventView)
    requires
        wf(f),
        fits(f.stage, e),
    ensures
        next(f, e).1 is SendText ==> next(f, e).0.stage == Stage::AwaitSent,
        f.stage == Stage::AwaitSent ==> next(f, e).1 is Finish,
        next(f, e).1 is SendText ==> next(f, e).1->SendText_chat_id == f.request.chat_id,
{
}

/// A flow finishes right after its reply, with `ok` telling whether the reply
/// went out, except for a `/ban` that answers a message without an author,
/// which ends silently once the requester's role is known. With the start of a
/// flow and its progress this makes every command from an author answered
/// exactly once, but for that one case.
pub proof fn law_finish_follows_reply(f: FlowView, e: EventView)
    requires
        wf(f),
        fits(f.stage, e),
    ensures
        next(f, e).1 matches ActionView::Finish { ok } ==> {
            ||| f.stage == Stage::AwaitSent && ok == (e matches EventView::TelegramDone(Ok(_)))
            ||| {
                &&& f.stage == Stage::AwaitRequesterRole
                &&& ok
                &&& f.request.command == Command::Ban
                &&& is_staff(next(f, e).0.role)
                &&& f.request.reply_to is Some
                &&& target_of(f.request) is None
            }
        },
{
}

/// Admin rights change only on the owner's command: `/giveadmin` and
/// `/removeadmin` touch the admin list only right after the requester's role
/// was looked up and found to be `owner`, for the author of the message the
/// command answers, who for `/giveadmin` is no bot.
pub proof fn law_admin_rights_need_owner(f: FlowView, e: EventView)
    requires
        wf(f),
        fits(f.stage, e),
    ensures
        next(f, e).1 matches ActionView::AddAdmin { chat_id, user_id } ==> {
            &&& f.stage == Stage::AwaitRequesterRole
            &&& e matches EventView::RoleFound(r) && looked_up_role(r) == RoleKind::Owner
            &&& f.request.command == Command::GiveAdmin
            &&& human_target(f.request)
            &&& chat_id == f.request.chat_id
            &&& user_id == target(f).id as i64
        },
        next(f, e).1 matches ActionView::RemoveAdmin { chat_id, user_id } ==> {
            &&& f.stage == Stage::AwaitRequesterRole
            &&& e matches EventView::RoleFound(r) && looked_up_role(r) == RoleKind::Owner
            &&& f.request.command == Command::RemoveAdmin
            &&& chat_id == f.request.chat_id
            &&& user_id == target(f).id as i64
        },
{
}

/// An admin's flow that waited for the count of the admin's recent bans, and
/// learned that it is below the limit.
pub open spec fn admin_count_below_limit(f: FlowView, e: EventView) -> bool {
    f.role == RoleKind::Admin && match (f.stage, e) {
        (Stage::AwaitBanCount { limit, .. }, EventView::BansCounted(Ok(n))) => n < limit,
        _ => false,
    }
}

/// Who may be banned, by whom, and how often: a ban is issued only on a
/// `/ban` from the owner or an admin, against the author of the answered
/// message, who is neither a bot nor the requester and whose role lookup
/// found no role; the owner's bans come right after that lookup, an admin's
/// only once the admin's bans counted in the period stay below the limit.
pub proof fn law_ban_rules(f: FlowView, e: EventView)
    requires
        wf(f),
        fits(f.stage, e),
    ensures
        next(f, e).1 matches ActionView::BanMember { chat_id, user_id } ==> {
            &&& bannable_target(f.request)
            &&& chat_id == f.request.chat_id
            &&& user_id == target(f).id
            &&& next(f, e).0.target_clear
            &&& {
                ||| (f.role == RoleKind::Owner && f.stage == Stage::AwaitTargetRole
                    && !(e matches EventView::RoleFound(Ok(Some(_)))))
                ||| admin_count_below_limit(f, e)
            }
        },
        wf(next(f, e).0),
        next(f, e).0.stage == Stage::AwaitBanMember ==> (next(f, e).0.role == RoleKind::Owner
            || under_limit(next(f, e).0.quota)),
{
}

/// The owner is not held to the limit: no limits are looked up, and no bans
/// counted, for the owner.
pub proof fn law_owner_unlimited(f: FlowView, e: EventView)
    requires
        wf(f),
        fits(f.stage, e),
    ensures
        (next(f, e).1 is GetLimits || next(f, e).1 is ReadClock || next(f, e).1 is CountBansSince)
            ==> next(f, e).0.role == RoleKind::Admin,
{
}

/// A ban is written to the database, and the offending message deleted,
/// only after Telegram carried the ban out; the record names the requester
/// as the one who banned and keeps the reason given with the command.
pub proof fn law_record_after_ban(f: FlowView, e: EventView)
    requires
        wf(f),
        fits(f.stage, e),
    ensures
        next(f, e).1 matches ActionView::RecordBan { chat_id, user_id, banned_by, reason } ==> {
            &&& f.stage == Stage::AwaitBanMember
            &&& e matches EventView::TelegramDone(Ok(_))
            &&& chat_id == f.request.chat_id
            &&& user_id == target(f).id as i64
            &&& banned_by == requester(f).id as i64
            &&& reason == reason_in(f.request.text)
        },
        next(f, e).1 is DeleteMessage ==> f.stage == Stage::AwaitBanRecord,
{
}

/// `/unban` is for the owner and admins, and the ban is deleted from the
/// database only after Telegram lifted it.
pub proof fn law_unban_rules(f: FlowView, e: EventView)
    requires
        wf(f),
        fits(f.stage, e),
    ensures
        next(f, e).1 matches ActionView::UnbanMember { chat_id, user_id } ==> {
            &&& f.stage == Stage::AwaitRequesterRole
            &&& e matches EventView::RoleFound(r) && is_staff(looked_up_role(r))
            &&& f.request.command matches Command::Unban(id) && user_id == id as u64
            &&& chat_id == f.request.chat_id
        },
        next(f, e).1 matches ActionView::ForgetBan { chat_id, user_id } ==> {
            &&& f.stage == Stage::AwaitUnbanMember
            &&& e matches EventView::TelegramDone(Ok(_))
            &&& f.request.command == Command::Unban(user_id)
            &&& is_staff(f.role)
        },
{
}

proof fn lemma_escape_char_safe(c: char)
    ensures
        forall|i: int|
            0 <= i < escape_char(c).len() ==> #[trigger] escape_char(c)[i] != '<'
                && escape_char(c)[i] != '>',
{
    reveal_strlit("&amp;");
    reveal_strlit("&lt;");
    reveal_strlit("&gt;");
}

/// Escaped text holds no markup: no `<` and no `>` remain, so a name shown in
/// a mention cannot open or close an HTML tag.
pub proof fn law_escape_leaves_no_tags(s: Seq<char>)
    ensures
        forall|i: int|
            0 <= i < escape_html(s).len() ==> #[trigger] escape_html(s)[i] != '<'
                && escape_html(s)[i] != '>',
    decreases s.len(),
{
    if s.len() > 0 {
        law_escape_leaves_no_tags(s.drop_last());
        lemma_escape_char_safe(s.last());
        let a = escape_html(s.drop_last());
        let b = escape_char(s.last());
        assert forall|i: int| 0 <= i < escape_html(s).len() implies #[trigger] escape_html(s)[i]
            != '<' && escape_html(s)[i] != '>' by {
            if i < a.len() {
                assert(escape_html(s)[i] == a[i]);
            } else {
                assert(escape_html(s)[i] == b[i - a.len()]);
            }
        }
    }
}

/// Text without `&`, `<` and `>` is shown as it is.
pub proof fn law_escape_keeps_plain_text(s: Seq<char>)
    requires
        forall|i: int| 0 <= i < s.len() ==> #[trigger] s[i] != '&' && s[i] != '<' && s[i] != '>',
    ensures
        escape_html(s) == s,
    decreases s.len(),
{
    if s.len() > 0 {
        law_escape_keeps_plain_text(s.drop_last());
        assert(s.drop_last().push(s.last()) =~= s);
    } else {
        assert(s =~= Seq::<char>::empty());
    }
}

proof fn lemma_decimal_digits(n: nat)
    ensures
        decimal(n).len() > 0,
        all_digits(decimal(n)),
        digits_value(decimal(n)) == n,
    decreases n,
{
    if n < 10 {
        let d = decimal(n);
        assert(d.drop_last() =~= Seq::<char>::empty());
        assert(digit_char(n) as u32 == n + 48);
        assert(d.last() == digit_char(n));
        assert(digits_value(d) == digits_value(d.drop_last()) * 10 + (d.last() as u32 - 48));
    } else {
        lemma_decimal_digits(n / 10);
        let d = decimal(n);
        assert(d.drop_last() =~= decimal(n / 10));
        assert(digit_char(n % 10) as u32 == n % 10 + 48);
        assert(d.last() == digit_char(n % 10));
        assert(digits_value(d) == digits_value(decimal(n / 10)) * 10 + (d.last() as u32 - 48));
        assert(n == (n / 10) * 10 + n % 10);
        assert forall|i: int| 0 <= i < d.len() implies is_digit(#[trigger] d[i]) by {
            if i < d.len() - 1 {
                assert(d[i] == decimal(n / 10)[i]);
            }
        }
    }
}

/// The number the bot writes reads back as the same number: the decimal
/// text of any `i64` parses, as a setting is parsed, to that `i64`.
pub proof fn law_decimal_reads_back(n: i64)
    ensures
        parse_i64_value(signed_decimal(n as int)) == Some(n),
{
    if n < 0 {
        let m = (-n) as nat;
        lemma_decimal_digits(m);
        let s = signed_decimal(n as int);
        assert(s[0] == '-');
        assert(s.drop_first() =~= decimal(m));
    } else {
        lemma_decimal_digits(n as nat);
        let s = decimal(n as nat);
        assert(is_digit(s[0]));
    }
}

proof fn lemma_trim_start_front(s: Seq<char>)
    ensures
        trim_start(s).len() > 0 ==> !is_white_space(trim_start(s)[0]),
    decreases s.len(),
{
    if s.len() > 0 && is_white_space(s[0]) {
        lemma_trim_start_front(s.drop_first());
    }
}

proof fn lemma_trim_end_prefix(s: Seq<char>)
    ensures
        trim_end(s).len() <= s.len(),
        trim_end(s) =~= s.subrange(0, trim_end(s).len() as int),
        trim_end(s).len() > 0 ==> !is_white_space(trim_end(s).last()),
    decreases s.len(),
{
    if s.len() > 0 && is_white_space(s.last()) {
        lemma_trim_end_prefix(s.drop_last());
    }
}

/// The reason recorded with a ban is never empty and has no white space at
/// either end.
pub proof fn law_reason_is_trimmed(text: Option<Seq<char>>)
    ensures
        reason_in(text) matches Some(r) ==> r.len() > 0 && !is_white_space(r[0])
            && !is_white_space(r.last()),
{
    if let Some(t) = text {
        if let Some(r) = words_after_first(t) {
            let i = crate::text::first_white_space(t)->0;
            let rest = t.subrange(i + 1, t.len() as int);
            lemma_trim_start_front(rest);
            lemma_trim_end_prefix(trim_start(rest));
            let u = trim_start(rest);
            assert(r == trim_end(u));
            assert(r[0] == u[0]);
        }
    }
}

/// A reply of `text` to the command's chat, after which the flow waits for
/// the reply to go out.
pub open spec fn replies(f: FlowView, e: EventView, text: Seq<char>, html: bool) -> bool {
    &&& next(f, e).1 == ActionView::SendText { chat_id: f.request.chat_id, text, html }
    &&& next(f, e).0.stage == Stage::AwaitSent
}

/// The requester's role was looked up: `e` answers the first lookup.
pub open spec fn requester_role_is(f: FlowView, e: EventView, k: RoleKind) -> bool {
    &&& f.stage == Stage::AwaitRequesterRole
    &&& e matches EventView::RoleFound(r) && looked_up_role(r) == k
}

/// The chat's settings that a limits query found.
pub open spec fn settings_found(e: EventView) -> Option<(i64, i64)> {
    match e {
        EventView::LimitsFound(Ok(Some(p))) => Some(p),
        _ => None,
    }
}

/// The ban limit among the settings found.
pub open spec fn found_limit(e: EventView) -> i64 {
    match e {
        EventView::LimitsFound(Ok(Some((limit, _)))) => limit,
        _ => 0,
    }
}

/// The period in hours among the settings found.
pub open spec fn found_hours(e: EventView) -> i64 {
    match e {
        EventView::LimitsFound(Ok(Some((_, hours)))) => hours,
        _ => 0,
    }
}

/// The number of bans that a count found.
pub open spec fn bans_counted(e: EventView) -> Option<i64> {
    match e {
        EventView::BansCounted(Ok(n)) => Some(n),
        _ => None,
    }
}

/// The database's role names: `owner` and `admin` name the two staff roles;
/// no row, another name, or a failed query leave a plain member.
pub proof fn law_role_names(r: Result<Option<Seq<char>>, DbError>)
    ensures
        r == Ok::<Option<Seq<char>>, DbError>(Some("owner"@)) ==> looked_up_role(r)
            == RoleKind::Owner,
        r == Ok::<Option<Seq<char>>, DbError>(Some("admin"@)) ==> looked_up_role(r)
            == RoleKind::Admin,
        r matches Ok(Some(s)) && s != "owner"@ && s != "admin"@ ==> looked_up_role(r)
            == RoleKind::Member,
        r matches Ok(None) ==> looked_up_role(r) == RoleKind::Member,
        r is Err ==> looked_up_role(r) == RoleKind::Member,
{
    reveal_strlit("owner");
    reveal_strlit("admin");
    assert("admin"@[0] != "owner"@[0]);
}

/// `/help` is answered, in plain text, with the commands the requester's role
/// may use.
pub proof fn law_help_by_role(f: FlowView, e: EventView)
    requires
        wf(f),
        f.stage == Stage::AwaitRequesterRole,
        fits(f.stage, e),
        f.request.command == Command::Help,
    ensures
        requester_role_is(f, e, RoleKind::Owner) ==> replies(f, e, OWNER_HELP@, false),
        requester_role_is(f, e, RoleKind::Admin) ==> replies(f, e, ADMIN_HELP@, false),
        requester_role_is(f, e, RoleKind::Member) ==> replies(f, e, USER_HELP@, false),
{
}

/// `/giveadmin` from the owner, answering a message whose author is no bot,
/// makes that author an admin of the chat; every other `/giveadmin` is
/// refused with the reason.
pub proof fn law_giveadmin_outcomes(f: FlowView, e: EventView)
    requires
        wf(f),
        f.stage == Stage::AwaitRequesterRole,
        fits(f.stage, e),
        f.request.command == Command::GiveAdmin,
    ensures
        !requester_role_is(f, e, RoleKind::Owner) ==> replies(f, e, OWNER_ONLY@, false),
        requester_role_is(f, e, RoleKind::Owner) && target_of(f.request) is None ==> replies(
            f,
            e,
            REPLY_TO_PERSON@,
            false,
        ),
        requester_role_is(f, e, RoleKind::Owner) && target_of(f.request) is Some && target(
            f,
        ).is_bot ==> replies(f, e, NO_RIGHTS_FOR_BOTS@, false),
        requester_role_is(f, e, RoleKind::Owner) && target_of(f.request) is Some && !target(
            f,
        ).is_bot ==> {
            &&& next(f, e).1 == ActionView::AddAdmin {
                chat_id: f.request.chat_id,
                user_id: target(f).id as i64,
            }
            &&& next(f, e).0.stage == Stage::AwaitRowsChanged
        },
{
}

/// `/removeadmin` from the owner, answering a message with an author, takes
/// the admin role from that author; every other `/removeadmin` is refused.
pub proof fn law_removeadmin_outcomes(f: FlowView, e: EventView)
    requires
        wf(f),
        f.stage == Stage::AwaitRequesterRole,
        fits(f.stage, e),
        f.request.command == Command::RemoveAdmin,
    ensures
        !requester_role_is(f, e, RoleKind::Owner) ==> replies(f, e, OWNER_ONLY@, false),
        requester_role_is(f, e, RoleKind::Owner) && target_of(f.request) is None ==> replies(
            f,
            e,
            REPLY_TO_PERSON@,
            false,
        ),
        requester_role_is(f, e, RoleKind::Owner) && target_of(f.request) is Some ==> {
            &&& next(f, e).1 == ActionView::RemoveAdmin {
                chat_id: f.request.chat_id,
                user_id: target(f).id as i64,
            }
            &&& next(f, e).0.stage == Stage::AwaitRowsChanged
        },
{
}

/// `/ban` from the owner or an admin, answering a message of someone other
/// than a bot or the requester, goes on to look up that person's role; a
/// member's `/ban` and one without an answered message are refused, and a
/// bot or oneself is never a target.
pub proof fn law_ban_request_outcomes(f: FlowView, e: EventView)
    requires
        wf(f),
        f.stage == Stage::AwaitRequesterRole,
        fits(f.stage, e),
        f.request.command == Command::Ban,
    ensures
        requester_role_is(f, e, RoleKind::Member) ==> replies(f, e, STAFF_ONLY@, false),
        !requester_role_is(f, e, RoleKind::Member) && f.request.reply_to is None ==> replies(
            f,
            e,
            REPLY_TO_OFFENDER@,
            false,
        ),
        !requester_role_is(f, e, RoleKind::Member) && target_of(f.request) is Some && (target(
            f,
        ).is_bot || target(f).id == requester(f).id) ==> replies(f, e, CANNOT_BAN_USER@, false),
        !requester_role_is(f, e, RoleKind::Member) && target_of(f.request) is Some && !target(
            f,
        ).is_bot && target(f).id != requester(f).id ==> {
            &&& next(f, e).1 == ActionView::LookupRole {
                chat_id: f.request.chat_id,
                user_id: target(f).id as i64,
            }
            &&& next(f, e).0.stage == Stage::AwaitTargetRole
            &&& next(f, e).0.role == looked_up_role(e->RoleFound_0)
        },
{
}

/// `/unban <id>` from the owner or an admin asks Telegram to lift the ban of
/// exactly that user id, whatever its size; from a member it is refused.
pub proof fn law_unban_request_outcomes(f: FlowView, e: EventView, id: i64)
    requires
        wf(f),
        f.stage == Stage::AwaitRequesterRole,
        fits(f.stage, e),
        f.request.command == Command::Unban(id),
    ensures
        requester_role_is(f, e, RoleKind::Member) ==> replies(f, e, STAFF_ONLY@, false),
        !requester_role_is(f, e, RoleKind::Member) ==> {
            &&& next(f, e).1 == ActionView::UnbanMember {
                chat_id: f.request.chat_id,
                user_id: id as u64,
            }
            &&& next(f, e).0.stage == Stage::AwaitUnbanMember
        },
{
}

/// Nobody who holds a role is banned: once the target's lookup finds any
/// role, the answer is a refusal, whoever asked. Where it finds none (or
/// fails), the owner's ban goes out at once and an admin's limits are looked
/// up.
pub proof fn law_staff_target_spared(f: FlowView, e: EventView)
    requires
        wf(f),
        f.stage == Stage::AwaitTargetRole,
        fits(f.stage, e),
    ensures
        e matches EventView::RoleFound(Ok(Some(_))) ==> replies(f, e, CANNOT_BAN_STAFF@, false),
        !(e matches EventView::RoleFound(Ok(Some(_)))) && f.role == RoleKind::Owner ==> {
            &&& next(f, e).1 == ActionView::BanMember {
                chat_id: f.request.chat_id,
                user_id: target(f).id,
            }
            &&& next(f, e).0.stage == Stage::AwaitBanMember
        },
        !(e matches EventView::RoleFound(Ok(Some(_)))) && f.role == RoleKind::Admin ==> {
            &&& next(f, e).1 == ActionView::GetLimits { chat_id: f.request.chat_id }
            &&& next(f, e).0.stage == Stage::AwaitLimits
        },
{
}

/// A ban is issued only where the target's role lookup found no role: no
/// flow that reached a ban holds a target with a role.
pub proof fn law_ban_needs_roleless_target(f: FlowView, e: EventView)
    requires
        wf(f),
        fits(f.stage, e),
        f.stage == Stage::AwaitTargetRole,
        e matches EventView::RoleFound(Ok(Some(_))),
    ensures
        !(next(f, e).1 is BanMember),
        !(next(f, e).1 is GetLimits),
        !next(f, e).0.target_clear,
{
}

/// The chat's own limits are the ones applied; a chat without settings gets
/// five bans per six hours; a failed query is an internal error.
pub proof fn law_limits_applied(f: FlowView, e: EventView)
    requires
        wf(f),
        f.stage == Stage::AwaitLimits,
        fits(f.stage, e),
    ensures
        settings_found(e) is Some ==> {
            &&& next(f, e).0.stage == (Stage::AwaitClock {
                limit: found_limit(e),
                hours: found_hours(e),
            })
            &&& next(f, e).1 == ActionView::ReadClock
        },
        e matches EventView::LimitsFound(Ok(None)) ==> {
            &&& next(f, e).0.stage == (Stage::AwaitClock { limit: 5, hours: 6 })
            &&& next(f, e).1 == ActionView::ReadClock
        },
        e matches EventView::LimitsFound(Err(_)) ==> replies(f, e, INTERNAL_ERROR@, false),
{
    assert(DEFAULT_ACTION_LIMIT == 5 && DEFAULT_PERIOD_HOURS == 6);
}

/// The admin's bans are counted over the `hours` hours that end now.
pub proof fn law_window_is_the_period(f: FlowView, limit: i64, hours: i64, now: i64)
    requires
        wf(f),
        f.stage == (Stage::AwaitClock { limit, hours }),
        fits(f.stage, EventView::ClockRead(now)),
    ensures
        next(f, EventView::ClockRead(now)).1 == (ActionView::CountBansSince {
            chat_id: f.request.chat_id,
            admin_id: requester(f).id as i64,
            since: (now - hours * 3600) as i64,
        }),
        next(f, EventView::ClockRead(now)).0.stage == (Stage::AwaitBanCount { limit, hours }),
{
}

/// An admin below the limit bans; one at or above it is told the limit and
/// bans nobody.
pub proof fn law_count_decides(f: FlowView, limit: i64, hours: i64, e: EventView)
    requires
        wf(f),
        f.stage == (Stage::AwaitBanCount { limit, hours }),
        fits(f.stage, e),
    ensures
        bans_counted(e) is Some && bans_counted(e)->0 < limit ==> {
            &&& next(f, e).1 == ActionView::BanMember {
                chat_id: f.request.chat_id,
                user_id: target(f).id,
            }
            &&& next(f, e).0.quota == Some((bans_counted(e)->0, limit))
            &&& next(f, e).0.stage == Stage::AwaitBanMember
        },
        bans_counted(e) is Some && bans_counted(e)->0 >= limit ==> replies(
            f,
            e,
            LIMIT_PREFIX@ + signed_decimal(limit as int) + LIMIT_MIDDLE@ + signed_decimal(
                hours as int,
            ) + LIMIT_SUFFIX@,
            false,
        ),
        e matches EventView::BansCounted(Err(_)) ==> replies(f, e, INTERNAL_ERROR@, false),
{
}

/// A ban that Telegram refused is reported and goes no further.
pub proof fn law_failed_ban_reported(f: FlowView, e: EventView)
    requires
        wf(f),
        f.stage == Stage::AwaitBanMember,
        e matches EventView::TelegramDone(Err(_)),
    ensures
        replies(f, e, BAN_FAILED@, false),
{
}

/// An unban that Telegram refused is reported, and the database keeps the ban.
pub proof fn law_failed_unban_reported(f: FlowView, e: EventView)
    requires
        wf(f),
        f.stage == Stage::AwaitUnbanMember,
        e matches EventView::TelegramDone(Err(_)),
    ensures
        replies(f, e, UNBAN_FAILED@, false),
{
}

/// A new admin is announced with a mention; an existing role is reported
/// as such.
pub proof fn law_giveadmin_answers(f: FlowView, e: EventView)
    requires
        wf(f),
        f.stage == Stage::AwaitRowsChanged,
        f.request.command == Command::GiveAdmin,
        fits(f.stage, e),
    ensures
        e matches EventView::RowsChanged(Ok(n)) && n > 0 ==> replies(
            f,
            e,
            mention_of(target(f)) + NOW_ADMIN@,
            true,
        ),
        e == EventView::RowsChanged(Ok(0)) ==> replies(f, e, ALREADY_ADMIN@, true),
        e matches EventView::RowsChanged(Err(_)) ==> replies(f, e, INTERNAL_ERROR@, true),
{
}

/// A ban that Telegram carried out is written to the database, naming the
/// target, the requester and the reason given with the command.
pub proof fn law_done_ban_recorded(f: FlowView, e: EventView)
    requires
        wf(f),
        f.stage == Stage::AwaitBanMember,
        e matches EventView::TelegramDone(Ok(_)),
    ensures
        next(f, e).1 == (ActionView::RecordBan {
            chat_id: f.request.chat_id,
            user_id: target(f).id as i64,
            banned_by: requester(f).id as i64,
            reason: reason_in(f.request.text),
        }),
        next(f, e).0.stage == Stage::AwaitBanRecord,
{
}

/// After the record, whether or not it was written, the offending message
/// (the one the command answers) is deleted.
pub proof fn law_offending_message_deleted(f: FlowView, e: EventView)
    requires
        wf(f),
        f.stage == Stage::AwaitBanRecord,
        e is BanRecorded,
    ensures
        next(f, e).1 == (ActionView::DeleteMessage {
            chat_id: f.request.chat_id,
            message_id: f.request.reply_to->0.message_id,
        }),
        next(f, e).0.stage == Stage::AwaitDelete,
{
}

/// After the deletion, whether or not it went through, the ban is announced
/// in HTML with a mention of the target and the reason, where one was given.
pub proof fn law_ban_announced(f: FlowView, e: EventView)
    requires
        wf(f),
        f.stage == Stage::AwaitDelete,
        e is TelegramDone,
    ensures
        reason_in(f.request.text) is None ==> replies(f, e, mention_of(target(f)) + BANNED@, true),
        reason_in(f.request.text) is Some ==> replies(
            f,
            e,
            mention_of(target(f)) + BANNED_FOR@ + reason_in(f.request.text)->0,
            true,
        ),
{
}

/// An unban that Telegram carried out is deleted from the database, for the
/// same user id.
pub proof fn law_done_unban_forgotten(f: FlowView, e: EventView, id: i64)
    requires
        wf(f),
        f.stage == Stage::AwaitUnbanMember,
        f.request.command == Command::Unban(id),
        e matches EventView::TelegramDone(Ok(_)),
    ensures
        next(f, e).1 == (ActionView::ForgetBan { chat_id: f.request.chat_id, user_id: id }),
        next(f, e).0.stage == Stage::AwaitRowsChanged,
{
}

/// The answers to `/removeadmin` and `/unban` once the database acted:
/// whether a row was deleted decides the answer.
pub proof fn law_removal_answers(f: FlowView, e: EventView)
    requires
        wf(f),
        f.stage == Stage::AwaitRowsChanged,
        fits(f.stage, e),
    ensures
        f.request.command == Command::RemoveAdmin ==> {
            &&& (e matches EventView::RowsChanged(Ok(n)) && n > 0) ==> replies(
                f,
                e,
                full_name_of(target(f)) + NO_LONGER_ADMIN@,
                false,
            )
            &&& e == EventView::RowsChanged(Ok(0)) ==> replies(f, e, WAS_NOT_ADMIN@, false)
            &&& e is RowsChanged && e->RowsChanged_0 is Err ==> replies(
                f,
                e,
                INTERNAL_ERROR@,
                false,
            )
        },
        f.request.command is Unban ==> {
            &&& (e matches EventView::RowsChanged(Ok(n)) && n > 0) ==> replies(
                f,
                e,
                UNBANNED@,
                false,
            )
            &&& e == EventView::RowsChanged(Ok(0)) ==> replies(f, e, NOT_BANNED@, false)
            &&& e is RowsChanged && e->RowsChanged_0 is Err ==> replies(
                f,
                e,
                INTERNAL_ERROR@,
                false,
            )
        },
{
}

/// Once the reply went out, or failed to, the command is handled; it fails
/// exactly when the reply failed.
pub proof fn law_reply_ends_flow(f: FlowView, e: EventView)
    requires
        f.stage == Stage::AwaitSent,
        e is TelegramDone,
    ensures
        next(f, e).1 == (ActionView::Finish { ok: e->TelegramDone_0 is Ok }),
        next(f, e).0.stage == (Stage::Finished { ok: e->TelegramDone_0 is Ok }),
{
}

/// The reason of a ban is the text after the command's first white space,
/// trimmed, whatever the first word is (`/ban`, `/ban@bot`, ...); a reason
/// that is empty after trimming is no reason.
pub proof fn law_reason_follows_first_space(t: Seq<char>, i: int)
    requires
        0 <= i < t.len(),
        is_white_space(t[i]),
        forall|j: int| 0 <= j < i ==> !is_white_space(#[trigger] t[j]),
    ensures
        trim(t.subrange(i + 1, t.len() as int)).len() > 0 ==> reason_in(Some(t)) == Some(
            trim(t.subrange(i + 1, t.len() as int)),
        ),
        trim(t.subrange(i + 1, t.len() as int)).len() == 0 ==> reason_in(Some(t)) is None,
{
    lemma_first_white_space(t, i);
}

/// A command without white space, or without text, gives no reason.
pub proof fn law_no_space_no_reason(t: Seq<char>)
    requires
        forall|j: int| 0 <= j < t.len() ==> !is_white_space(#[trigger] t[j]),
    ensures
        reason_in(Some(t)) is None,
        reason_in(None) is None,
{
    lemma_first_white_space(t, t.len() as int);
}

} // verus!
