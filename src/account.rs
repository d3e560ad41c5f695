//! The admin form that performs a moderation action on an account.

use crate::error::{BuildError, DecodeError};
use crate::ids::{ReportId, WarningPresetId};
use crate::json::{
    entries_text, has_key, lemma_entries_text_push, lemma_has_key_push_opt, object_text,
    push_bool, push_member_key, push_opt, push_quoted, Entry, WireValue,
};
use vstd::prelude::*;

verus! {

/// Action to be performed on the account.
#[derive(Debug, Clone, Copy, PartialEq, Eq, Structural)]
pub enum AccountAction {
    /// No action. Can be used to resolve any open reports against the account.
    NoAction,
    /// Force the account's statuses to be marked as containing sensitive media.
    Sensitive,
    /// Prevent the account from logging in.
    Disable,
    /// Silence the account.
    Silence,
    /// Suspend the account.
    Suspend,
}

/// The wire name of each action.
pub open spec fn action_token(a: AccountAction) -> Seq<char> {
    match a {
        AccountAction::NoAction => seq!['n', 'o', 'n', 'e'],
        AccountAction::Sensitive => seq!['s', 'e', 'n', 's', 'i', 't', 'i', 'v', 'e'],
        AccountAction::Disable => seq!['d', 'i', 's', 'a', 'b', 'l', 'e'],
        AccountAction::Silence => seq!['s', 'i', 'l', 'e', 'n', 'c', 'e'],
        AccountAction::Suspend => seq!['s', 'u', 's', 'p', 'e', 'n', 'd'],
    }
}

/// What decoding a wire name gives: the action it names, or an error when it
/// names none.
pub open spec fn action_from_token(s: Seq<char>) -> Result<AccountAction, DecodeError> {
    if s == action_token(AccountAction::NoAction) {
        Ok(AccountAction::NoAction)
    } else if s == action_token(AccountAction::Sensitive) {
        Ok(AccountAction::Sensitive)
    } else if s == action_token(AccountAction::Disable) {
        Ok(AccountAction::Disable)
    } else if s == action_token(AccountAction::Silence) {
        Ok(AccountAction::Silence)
    } else if s == action_token(AccountAction::Suspend) {
        Ok(AccountAction::Suspend)
    } else {
        Err(DecodeError::UnknownToken)
    }
}

/// Decoding the wire name of an action gives that action back.
pub proof fn lemma_action_round_trip(a: AccountAction)
    ensures
        action_from_token(action_token(a)) == Ok::<AccountAction, DecodeError>(a),
{
    let n = action_token(AccountAction::NoAction);
    let se = action_token(AccountAction::Sensitive);
    let d = action_token(AccountAction::Disable);
    let si = action_token(AccountAction::Silence);
    let su = action_token(AccountAction::Suspend);
    assert(n.len() != se.len() && n.len() != d.len() && n.len() != si.len() && n.len() != su.len());
    assert(se.len() != d.len() && se.len() != si.len() && se.len() != su.len());
    assert(d[0] != si[0] && d[0] != su[0]);
    assert(si[1] != su[1]);
}

/// A token that is not the wire name of an action never decodes to one.
pub proof fn lemma_action_closed(s: Seq<char>)
    requires
        forall|a: AccountAction| action_token(a) != s,
    ensures
        action_from_token(s) == Err::<AccountAction, DecodeError>(DecodeError::UnknownToken),
{
    assert(action_token(AccountAction::NoAction) != s);
    assert(action_token(AccountAction::Sensitive) != s);
    assert(action_token(AccountAction::Disable) != s);
    assert(action_token(AccountAction::Silence) != s);
    assert(action_token(AccountAction::Suspend) != s);
}

impl AccountAction {
    /// Is this `AccountAction::NoAction`?
    pub fn is_no_action(&self) -> (r: bool)
        ensures
            r == (*self is NoAction),
    {
        matches!(self, AccountAction::NoAction)
    }

    /// Is this `AccountAction::Sensitive`?
    pub fn is_sensitive(&self) -> (r: bool)
        ensures
            r == (*self is Sensitive),
    {
        matches!(self, AccountAction::Sensitive)
    }

    /// Is this `AccountAction::Disable`?
    pub fn is_disable(&self) -> (r: bool)
        ensures
            r == (*self is Disable),
    {
        matches!(self, AccountAction::Disable)
    }

    /// Is this `AccountAction::Silence`?
    pub fn is_silence(&self) -> (r: bool)
        ensures
            r == (*self is Silence),
    {
        matches!(self, AccountAction::Silence)
    }

    /// Is this `AccountAction::Suspend`?
    pub fn is_suspend(&self) -> (r: bool)
        ensures
            r == (*self is Suspend),
    {
        matches!(self, AccountAction::Suspend)
    }

    /// The action's name on the wire.
    pub fn wire_name(&self) -> (r: &'static str)
        ensures
            r@ == action_token(*self),
    {
        proof {
            reveal_strlit("none");
            reveal_strlit("sensitive");
            reveal_strlit("disable");
            reveal_strlit("silence");
            reveal_strlit("suspend");
        }
        match self {
            AccountAction::NoAction => "none",
            AccountAction::Sensitive => "sensitive",
            AccountAction::Disable => "disable",
            AccountAction::Silence => "silence",
            AccountAction::Suspend => "suspend",
        }
    }

    /// Decodes an action from its wire name; any other token is an error.
    pub fn from_wire_name(s: &str) -> (r: Result<AccountAction, DecodeError>)
        ensures
            r == action_from_token(s@),
            r is Err <==> forall|a: AccountAction| action_token(a) != s@,
    {
        proof {
            lemma_action_round_trip(AccountAction::NoAction);
            lemma_action_round_trip(AccountAction::Sensitive);
            lemma_action_round_trip(AccountAction::Disable);
            lemma_action_round_trip(AccountAction::Silence);
            lemma_action_round_trip(AccountAction::Suspend);
        }
        let t = String::from_str(s);
        let candidates = [
            AccountAction::NoAction,
            AccountAction::Sensitive,
            AccountAction::Disable,
            AccountAction::Silence,
            AccountAction::Suspend,
        ];
        let mut i: usize = 0;
        while i < 5
            invariant
                t@ == s@,
                0 <= i <= 5,
                candidates@ == seq![
                    AccountAction::NoAction,
                    AccountAction::Sensitive,
                    AccountAction::Disable,
                    AccountAction::Silence,
                    AccountAction::Suspend,
                ],
                forall|k: int| 0 <= k < i ==> action_token(#[trigger] candidates@[k]) != s@,
            decreases 5 - i,
        {
            let a = candidates[i];
            if t == String::from_str(a.wire_name()) {
                return Ok(a);
            }
            i = i + 1;
        }
        proof {
            assert forall|a: AccountAction| action_token(a) != s@ by {
                match a {
                    AccountAction::NoAction => assert(action_token(candidates@[0]) != s@),
                    AccountAction::Sensitive => assert(action_token(candidates@[1]) != s@),
                    AccountAction::Disable => assert(action_token(candidates@[2]) != s@),
                    AccountAction::Silence => assert(action_token(candidates@[3]) != s@),
                    AccountAction::Suspend => assert(action_token(candidates@[4]) != s@),
                }
            }
            lemma_action_closed(s@);
        }
        Err(DecodeError::UnknownToken)
    }
}

} // verus!

verus! {

/// The wire key of the action.
pub open spec fn type_key() -> Seq<char> {
    seq!['t', 'y', 'p', 'e']
}

/// The wire key of the associated report.
pub open spec fn report_id_key() -> Seq<char> {
    seq!['r', 'e', 'p', 'o', 'r', 't', '_', 'i', 'd']
}

/// The wire key of the warning preset.
pub open spec fn warning_preset_id_key() -> Seq<char> {
    seq!['w', 'a', 'r', 'n', 'i', 'n', 'g', '_', 'p', 'r', 'e', 's', 'e', 't', '_', 'i', 'd']
}

/// The wire key of the clarifying text.
pub open spec fn text_key() -> Seq<char> {
    seq!['t', 'e', 'x', 't']
}

/// The wire key of the e-mail notification flag.
pub open spec fn send_email_notification_key() -> Seq<char> {
    seq![
        's', 'e', 'n', 'd', '_', 'e', 'm', 'a', 'i', 'l', '_', 'n', 'o', 't', 'i', 'f', 'i', 'c',
        'a', 't', 'i', 'o', 'n',
    ]
}

/// The name of the action field, as a build error reports it.
pub open spec fn action_field() -> Seq<char> {
    seq!['a', 'c', 't', 'i', 'o', 'n']
}

/// Form used to perform an admin action on an account and resolve any open
/// reports.
#[derive(Debug, Clone)]
pub struct AccountActionRequest {
    /// The type of action to be taken.
    pub action: AccountAction,
    /// The ID of an associated report that caused this action to be taken.
    pub report_id: Option<ReportId>,
    /// The ID of a preset warning.
    pub warning_preset_id: Option<WarningPresetId>,
    /// Additional clarification for why this action was taken.
    pub text: Option<String>,
    /// Should an email be sent to the user with the above information?
    pub send_email_notification: Option<bool>,
}

/// The fields set so far on a request builder.
pub ghost struct RequestDraft {
    pub action: Option<AccountAction>,
    pub report_id: Option<Seq<char>>,
    pub warning_preset_id: Option<Seq<char>>,
    pub text: Option<Seq<char>>,
    pub send_email_notification: Option<bool>,
}

/// Builder for `AccountActionRequest`.
#[derive(Debug, Clone)]
pub struct AccountActionRequestBuilder {
    action: Option<AccountAction>,
    report_id: Option<ReportId>,
    warning_preset_id: Option<WarningPresetId>,
    text: Option<String>,
    send_email_notification: Option<bool>,
}

/// The raw text of an optional identifier.
pub open spec fn id_text<K>(o: Option<crate::ids::Id<K>>) -> Option<Seq<char>> {
    match o {
        Some(id) => Some(id@),
        None => None,
    }
}

/// The characters of an optional string.
pub open spec fn string_text(o: Option<String>) -> Option<Seq<char>> {
    match o {
        Some(s) => Some(s@),
        None => None,
    }
}

/// An optional text as an optional wire value.
pub open spec fn str_value(o: Option<Seq<char>>) -> Option<WireValue> {
    match o {
        Some(s) => Some(WireValue::Str(s)),
        None => None,
    }
}

/// An optional flag as an optional wire value.
pub open spec fn bool_value(o: Option<bool>) -> Option<WireValue> {
    match o {
        Some(b) => Some(WireValue::Bool(b)),
        None => None,
    }
}

/// The members of the encoded request, in declaration order; unset optional
/// fields have no member at all.
pub open spec fn request_entries(r: AccountActionRequest) -> Seq<Entry> {
    push_opt(
        push_opt(
            push_opt(
                push_opt(
                    seq![(type_key(), WireValue::Str(action_token(r.action)))],
                    report_id_key(),
                    str_value(id_text(r.report_id)),
                ),
                warning_preset_id_key(),
                str_value(id_text(r.warning_preset_id)),
            ),
            text_key(),
            str_value(string_text(r.text)),
        ),
        send_email_notification_key(),
        bool_value(r.send_email_notification),
    )
}

/// Does `r` hold exactly the fields that `d` has set?
pub open spec fn request_matches_draft(r: AccountActionRequest, d: RequestDraft) -> bool {
    &&& d.action == Some(r.action)
    &&& d.report_id == id_text(r.report_id)
    &&& d.warning_preset_id == id_text(r.warning_preset_id)
    &&& d.text == string_text(r.text)
    &&& d.send_email_notification == r.send_email_notification
}

impl View for AccountActionRequestBuilder {
    type V = RequestDraft;

    closed spec fn view(&self) -> RequestDraft {
        RequestDraft {
            action: self.action,
            report_id: id_text(self.report_id),
            warning_preset_id: id_text(self.warning_preset_id),
            text: string_text(self.text),
            send_email_notification: self.send_email_notification,
        }
    }
}

fn clone_id<K>(o: &Option<crate::ids::Id<K>>) -> (r: Option<crate::ids::Id<K>>)
    ensures
        id_text(r) == id_text(*o),
{
    match o {
        Some(id) => Some(id.clone()),
        None => None,
    }
}

fn push_str_member(out: &mut String, Ghost(es): Ghost<Seq<Entry>>, key: &str, v: &str)
    requires
        es.len() > 0,
        old(out)@ == seq!['{'] + entries_text(es),
    ensures
        final(out)@ == seq!['{'] + entries_text(es.push((key@, WireValue::Str(v@)))),
{
    push_member_key(out, false, key);
    push_quoted(out, v);
    proof {
        lemma_entries_text_push(es, (key@, WireValue::Str(v@)));
    }
    assert(out@ =~= seq!['{'] + entries_text(es.push((key@, WireValue::Str(v@)))));
}

impl AccountActionRequest {
    /// Start building a form for performing an admin action on an account.
    pub fn builder(action: AccountAction) -> (r: AccountActionRequestBuilder)
        ensures
            r@ == (RequestDraft {
                action: Some(action),
                report_id: None,
                warning_preset_id: None,
                text: None,
                send_email_notification: None,
            }),
    {
        AccountActionRequestBuilder {
            action: Some(action),
            report_id: None,
            warning_preset_id: None,
            text: None,
            send_email_notification: None,
        }
    }

    /// The JSON text of the form: the members of `request_entries`, in order.
    pub fn to_json(&self) -> (r: String)
        ensures
            r@ == object_text(request_entries(*self)),
    {
        let mut out = open_object(self.action);
        let ghost es: Seq<Entry> = seq![(type_key(), WireValue::Str(action_token(self.action)))];
        push_opt_str(&mut out, Ghost(es), key_name(1), id_str(&self.report_id));
        let ghost es = push_opt(es, report_id_key(), str_value(id_text(self.report_id)));
        push_opt_str(&mut out, Ghost(es), key_name(2), id_str(&self.warning_preset_id));
        let ghost es = push_opt(
            es,
            warning_preset_id_key(),
            str_value(id_text(self.warning_preset_id)),
        );
        let text = match &self.text {
            Some(t) => Some(t.as_str()),
            None => None,
        };
        push_opt_str(&mut out, Ghost(es), key_name(3), text);
        let ghost es = push_opt(es, text_key(), str_value(string_text(self.text)));
        push_opt_bool(&mut out, Ghost(es), key_name(4), self.send_email_notification);
        let ghost es = push_opt(
            es,
            send_email_notification_key(),
            bool_value(self.send_email_notification),
        );
        close_object(&mut out, Ghost(es));
        out
    }
}

/// The wire key of member `i` of the form, in declaration order.
pub open spec fn member_key(i: int) -> Seq<char> {
    if i == 0 {
        type_key()
    } else if i == 1 {
        report_id_key()
    } else if i == 2 {
        warning_preset_id_key()
    } else if i == 3 {
        text_key()
    } else {
        send_email_notification_key()
    }
}

fn key_name(i: usize) -> (r: &'static str)
    requires
        i < 5,
    ensures
        r@ == member_key(i as int),
{
    proof {
        reveal_strlit("type");
        reveal_strlit("report_id");
        reveal_strlit("warning_preset_id");
        reveal_strlit("text");
        reveal_strlit("send_email_notification");
    }
    if i == 0 {
        assert("type"@ =~= type_key());
        "type"
    } else if i == 1 {
        assert("report_id"@ =~= report_id_key());
        "report_id"
    } else if i == 2 {
        assert("warning_preset_id"@ =~= warning_preset_id_key());
        "warning_preset_id"
    } else if i == 3 {
        assert("text"@ =~= text_key());
        "text"
    } else {
        assert("send_email_notification"@ =~= send_email_notification_key());
        "send_email_notification"
    }
}

/// The characters of an optional borrowed string.
pub open spec fn str_text(o: Option<&str>) -> Option<Seq<char>> {
    match o {
        Some(s) => Some(s@),
        None => None,
    }
}

fn id_str<K>(o: &Option<crate::ids::Id<K>>) -> (r: Option<&str>)
    ensures
        str_text(r) == id_text(*o),
{
    match o {
        Some(id) => Some(id.as_str()),
        None => None,
    }
}

fn open_object(action: AccountAction) -> (r: String)
    ensures
        r@ == seq!['{'] + entries_text(
            seq![(type_key(), WireValue::Str(action_token(action)))],
        ),
{
    proof {
        reveal_strlit("{");
    }
    let ghost es: Seq<Entry> = seq![(type_key(), WireValue::Str(action_token(action)))];
    let mut out = String::from_str("{");
    assert(out@ =~= seq!['{']);
    push_member_key(&mut out, true, key_name(0));
    push_quoted(&mut out, action.wire_name());
    proof {
        lemma_entries_text_push(Seq::empty(), es[0]);
        assert(Seq::<Entry>::empty().push(es[0]) =~= es);
    }
    assert(out@ =~= seq!['{'] + entries_text(es));
    out
}

fn push_opt_str(out: &mut String, Ghost(es): Ghost<Seq<Entry>>, key: &str, v: Option<&str>)
    requires
        es.len() > 0,
        old(out)@ == seq!['{'] + entries_text(es),
    ensures
        final(out)@ == seq!['{'] + entries_text(push_opt(es, key@, str_value(str_text(v)))),
        push_opt(es, key@, str_value(str_text(v))).len() > 0,
{
    match v {
        Some(s) => push_str_member(out, Ghost(es), key, s),
        None => {},
    }
}

fn push_opt_bool(out: &mut String, Ghost(es): Ghost<Seq<Entry>>, key: &str, v: Option<bool>)
    requires
        es.len() > 0,
        old(out)@ == seq!['{'] + entries_text(es),
    ensures
        final(out)@ == seq!['{'] + entries_text(push_opt(es, key@, bool_value(v))),
        push_opt(es, key@, bool_value(v)).len() > 0,
{
    match v {
        Some(b) => {
            let ghost e = (key@, WireValue::Bool(b));
            push_member_key(out, false, key);
            push_bool(out, b);
            proof {
                lemma_entries_text_push(es, e);
            }
            assert(out@ =~= seq!['{'] + entries_text(es.push(e)));
        },
        None => {},
    }
}

fn close_object(out: &mut String, Ghost(es): Ghost<Seq<Entry>>)
    requires
        old(out)@ == seq!['{'] + entries_text(es),
    ensures
        final(out)@ == object_text(es),
{
    proof {
        reveal_strlit("}");
    }
    out.append("}");
    assert(out@ =~= object_text(es));
}

impl AccountActionRequestBuilder {
    /// Sets the ID of the report that caused this action.
    pub fn report_id(self, id: ReportId) -> (r: Self)
        ensures
            r@ == (RequestDraft { report_id: Some(id@), ..self@ }),
    {
        AccountActionRequestBuilder { report_id: Some(id), ..self }
    }

    /// Sets the ID of a preset warning.
    pub fn warning_preset_id(self, id: WarningPresetId) -> (r: Self)
        ensures
            r@ == (RequestDraft { warning_preset_id: Some(id@), ..self@ }),
    {
        AccountActionRequestBuilder { warning_preset_id: Some(id), ..self }
    }

    /// Sets the text that clarifies why the action was taken.
    pub fn text(self, text: &str) -> (r: Self)
        ensures
            r@ == (RequestDraft { text: Some(text@), ..self@ }),
    {
        AccountActionRequestBuilder { text: Some(String::from_str(text)), ..self }
    }

    /// Sets whether the user is told of the action by e-mail.
    pub fn send_email_notification(self, send: bool) -> (r: Self)
        ensures
            r@ == (RequestDraft { send_email_notification: Some(send), ..self@ }),
    {
        AccountActionRequestBuilder { send_email_notification: Some(send), ..self }
    }

    /// Build the form for performing an admin action on an account; fails
    /// when a required field was never set.
    pub fn build(&self) -> (r: Result<AccountActionRequest, BuildError>)
        ensures
            self@.action is None <==> r is Err,
            r matches Ok(req) ==> request_matches_draft(req, self@),
            r matches Err(e) ==> (e matches BuildError::UninitializedField(f) && f@
                == action_field()),
    {
        match self.action {
            Some(action) => Ok(
                AccountActionRequest {
                    action,
                    report_id: clone_id(&self.report_id),
                    warning_preset_id: clone_id(&self.warning_preset_id),
                    text: match &self.text {
                        Some(t) => Some(t.clone()),
                        None => None,
                    },
                    send_email_notification: self.send_email_notification,
                },
            ),
            None => {
                proof {
                    reveal_strlit("action");
                }
                Err(BuildError::UninitializedField("action"))
            },
        }
    }
}

} // verus!

verus! {

/// An unset optional field leaves no member in the encoded form (not even a
/// null), and a set one gives a member under its key holding its value.
pub proof fn lemma_optional_omit(r: AccountActionRequest)
    ensures
        has_key(request_entries(r), type_key()),
        has_key(request_entries(r), report_id_key()) <==> r.report_id is Some,
        has_key(request_entries(r), warning_preset_id_key()) <==> r.warning_preset_id is Some,
        has_key(request_entries(r), text_key()) <==> r.text is Some,
        has_key(request_entries(r), send_email_notification_key())
            <==> r.send_email_notification is Some,
        r.report_id matches Some(id) ==> request_entries(r).contains(
            (report_id_key(), WireValue::Str(id@)),
        ),
        r.warning_preset_id matches Some(id) ==> request_entries(r).contains(
            (warning_preset_id_key(), WireValue::Str(id@)),
        ),
        r.text matches Some(t) ==> request_entries(r).contains((text_key(), WireValue::Str(t@))),
        r.send_email_notification matches Some(b) ==> request_entries(r).contains(
            (send_email_notification_key(), WireValue::Bool(b)),
        ),
{
    let keys = seq![
        type_key(),
        report_id_key(),
        warning_preset_id_key(),
        text_key(),
        send_email_notification_key(),
    ];
    assert(type_key()[1] != text_key()[1]);
    assert forall|i: int, j: int| 0 <= i < j < 5 implies keys[i] != keys[j] by {
        if i == 0 && j == 3 {
            assert(keys[i][1] != keys[j][1]);
        } else {
            assert(keys[i].len() != keys[j].len());
        }
    }
    let e0: Seq<Entry> = seq![(type_key(), WireValue::Str(action_token(r.action)))];
    let e1 = push_opt(e0, report_id_key(), str_value(id_text(r.report_id)));
    let e2 = push_opt(e1, warning_preset_id_key(), str_value(id_text(r.warning_preset_id)));
    let e3 = push_opt(e2, text_key(), str_value(string_text(r.text)));
    let e4 = push_opt(e3, send_email_notification_key(), bool_value(r.send_email_notification));
    assert forall|k: Seq<char>| #[trigger] has_key(e0, k) <==> k == type_key() by {
        if has_key(e0, k) {
            let i = choose|i: int| 0 <= i < e0.len() && (#[trigger] e0[i]).0 == k;
        }
        if k == type_key() {
            assert(e0[0].0 == k);
        }
    }
    assert forall|k: Seq<char>| #[trigger] keys.contains(k) implies (has_key(e4, k) <==> (
    k == type_key() || (k == report_id_key() && r.report_id is Some) || (k
        == warning_preset_id_key() && r.warning_preset_id is Some) || (k == text_key()
        && r.text is Some) || (k == send_email_notification_key()
        && r.send_email_notification is Some))) by {
        lemma_has_key_push_opt(e0, report_id_key(), str_value(id_text(r.report_id)), k);
        lemma_has_key_push_opt(
            e1,
            warning_preset_id_key(),
            str_value(id_text(r.warning_preset_id)),
            k,
        );
        lemma_has_key_push_opt(e2, text_key(), str_value(string_text(r.text)), k);
        lemma_has_key_push_opt(
            e3,
            send_email_notification_key(),
            bool_value(r.send_email_notification),
            k,
        );
    }
    assert(keys[0] == type_key() && keys[1] == report_id_key() && keys[2]
        == warning_preset_id_key() && keys[3] == text_key() && keys[4]
        == send_email_notification_key());
    assert(keys.contains(keys[0]) && keys.contains(keys[1]) && keys.contains(keys[2])
        && keys.contains(keys[3]) && keys.contains(keys[4]));
    lemma_push_opt_keeps(e0, report_id_key(), str_value(id_text(r.report_id)));
    lemma_push_opt_keeps(e1, warning_preset_id_key(), str_value(id_text(r.warning_preset_id)));
    lemma_push_opt_keeps(e2, text_key(), str_value(string_text(r.text)));
    lemma_push_opt_keeps(e3, send_email_notification_key(), bool_value(r.send_email_notification));
}

proof fn lemma_push_opt_keeps(es: Seq<Entry>, k: Seq<char>, v: Option<WireValue>)
    ensures
        forall|e: Entry| es.contains(e) ==> #[trigger] push_opt(es, k, v).contains(e),
        v matches Some(x) ==> push_opt(es, k, v).contains((k, x)),
{
    match v {
        Some(x) => {
            let es2 = es.push((k, x));
            assert forall|e: Entry| es.contains(e) implies #[trigger] es2.contains(e) by {
                let i = choose|i: int| 0 <= i < es.len() && es[i] == e;
                assert(es2[i] == e);
            }
            assert(es2[es.len() as int] == (k, x));
        },
        None => {},
    }
}

} // verus!

verus! {

fn same_id<K>(a: &Option<crate::ids::Id<K>>, b: &Option<crate::ids::Id<K>>) -> (r: bool)
    ensures
        r == (id_text(*a) == id_text(*b)),
{
    match (a, b) {
        (Some(x), Some(y)) => x == y,
        (None, None) => true,
        _ => false,
    }
}

fn same_text(a: &Option<String>, b: &Option<String>) -> (r: bool)
    ensures
        r == (string_text(*a) == string_text(*b)),
{
    match (a, b) {
        (Some(x), Some(y)) => x.eq(y),
        (None, None) => true,
        _ => false,
    }
}

/// Do two forms hold the same action and the same optional fields?
pub open spec fn same_request(a: AccountActionRequest, b: AccountActionRequest) -> bool {
    &&& a.action == b.action
    &&& id_text(a.report_id) == id_text(b.report_id)
    &&& id_text(a.warning_preset_id) == id_text(b.warning_preset_id)
    &&& string_text(a.text) == string_text(b.text)
    &&& a.send_email_notification == b.send_email_notification
}

impl PartialEq for AccountActionRequest {
    fn eq(&self, other: &Self) -> (r: bool) {
        let flag = match (self.send_email_notification, other.send_email_notification) {
            (Some(x), Some(y)) => x == y,
            (None, None) => true,
            _ => false,
        };
        self.action == other.action && same_id(&self.report_id, &other.report_id) && same_id(
            &self.warning_preset_id,
            &other.warning_preset_id,
        ) && same_text(&self.text, &other.text) && flag
    }
}

impl vstd::std_specs::cmp::PartialEqSpecImpl for AccountActionRequest {
    open spec fn obeys_eq_spec() -> bool {
        true
    }

    open spec fn eq_spec(&self, other: &Self) -> bool {
        same_request(*self, *other)
    }
}

impl Eq for AccountActionRequest {

}

} // verus!
