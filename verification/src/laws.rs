//! What holds across registration and download.
use vstd::prelude::*;

use crate::config::Envs;
use crate::domain::{DownloadLinks, YtHistory};
use crate::download::{accepts, step_spec, DownloadAction, DownloadError, DownloadEvent, DownloadState};
use crate::text::{
    all_digits, contains_text, occurs_at, decimal, digit_char, digits_value, is_blank, is_digit, is_white_space,
    spec_parse_u64,
};
use crate::link_id::{
    hyphenated, lemma_hyphenated_lower, lemma_parse_hyphenated, lemma_parse_ignores_case, spec_parse_uuid, upper_text,
};
use crate::dto::spec_content_disposition;
use crate::register::{build_outcome, link_url, links_built, spec_data_check, RegisterError};
use crate::time::Timestamp;

verus! {

/// The identifier at the end of a link's URL: its last thirty-six characters.
pub open spec fn url_link_id(url: Seq<char>) -> Seq<char> {
    url.subrange(url.len() - 36, url.len() as int)
}

/// A link made by registration may be used at the instant it was made, and
/// at any instant from then until it expires, both ends included; it expires
/// the configured number of whole days after it was made.
pub proof fn law_new_link_is_usable(
    l: DownloadLinks,
    record: Option<YtHistory>,
    now: Timestamp,
    id: u128,
    envs: Envs,
    t: Timestamp,
)
    requires
        links_built(l, record, now, id, envs),
    ensures
        l.available_at(now),
        l.available_at(t) <==> (now.not_after(t) && t.not_after(l.expires_at)),
        l.expires_at.secs - l.created_at.secs == 86400 * envs.store_days(),
{
}

/// The URL of a link made by registration ends with a slash and then the
/// link's identifier, which holds no slash (so it is exactly the part after
/// the URL's last slash), and that text reads back as the identifier.
pub proof fn law_url_carries_link_id(
    l: DownloadLinks,
    record: Option<YtHistory>,
    now: Timestamp,
    id: u128,
    envs: Envs,
)
    requires
        links_built(l, record, now, id, envs),
    ensures
        l.url@.len() >= 37,
        l.url@[l.url@.len() - 37] == '/',
        forall|i: int| l.url@.len() - 36 <= i < l.url@.len() ==> #[trigger] l.url@[i] != '/',
        url_link_id(l.url@) == hyphenated(l.id),
        spec_parse_uuid(url_link_id(l.url@)) == Some(l.id),
{
    let u = l.url@;
    lemma_parse_hyphenated(id);
    assert(url_link_id(u) =~= hyphenated(id));
    assert forall|i: int| u.len() - 36 <= i < u.len() implies #[trigger] u[i] != '/' by {
        assert(u[i] == hyphenated(id)[i - (u.len() - 36)]);
    }
}

/// A download requested with the identifier that a registered link's URL
/// carries looks up that very link.
pub proof fn law_request_looks_up_registered_link(
    l: DownloadLinks,
    record: Option<YtHistory>,
    now: Timestamp,
    id: u128,
    envs: Envs,
    file_id: String,
    clock: Timestamp,
    root: Seq<char>,
    next: DownloadState,
    action: DownloadAction,
)
    requires
        links_built(l, record, now, id, envs),
        file_id@ == url_link_id(l.url@),
        step_spec(DownloadState::Start, (DownloadEvent::Requested { file_id }), clock, root, next, action),
    ensures
        action == (DownloadAction::LoadRecord { id: l.id }),
        next matches DownloadState::AwaitingRecord { file_id: f } && f@ == file_id@,
{
    law_url_carries_link_id(l, record, now, id, envs);
}

/// When the lookup finds a registered link while it may be used (at the
/// instant it was made, say), the download goes on to search the video
/// directory for that link's file.
pub proof fn law_found_link_is_searched(
    l: DownloadLinks,
    record: Option<YtHistory>,
    now: Timestamp,
    id: u128,
    envs: Envs,
    file_id: String,
    clock: Timestamp,
    root: Seq<char>,
    next: DownloadState,
    action: DownloadAction,
)
    requires
        links_built(l, record, now, id, envs),
        l.available_at(clock),
        step_spec(
            (DownloadState::AwaitingRecord { file_id }),
            (DownloadEvent::RecordLoaded { record: Some(l) }),
            clock,
            root,
            next,
            action,
        ),
    ensures
        action matches DownloadAction::ScanDir { root: d } && d@ == root,
        next matches DownloadState::Searching { root: d, record: r } && d@ == root && r == l,
{
}

/// Steps `0..n` of a directory search: each state, fed the entry named in
/// `names`, steps to the next state with the recorded action.
pub open spec fn search_run(
    names: Seq<Option<String>>,
    states: Seq<DownloadState>,
    actions: Seq<DownloadAction>,
    clock: Timestamp,
    root: Seq<char>,
    n: int,
) -> bool {
    forall|i: int|
        0 <= i < n ==> #[trigger] step_spec(
            states[i],
            (DownloadEvent::DirEntry { name: names[i] }),
            clock,
            root,
            states[i + 1],
            actions[i],
        )
}

proof fn lemma_search_stays(
    dir: String,
    record: DownloadLinks,
    names: Seq<Option<String>>,
    states: Seq<DownloadState>,
    actions: Seq<DownloadAction>,
    clock: Timestamp,
    root: Seq<char>,
    k: int,
    j: int,
)
    requires
        0 <= j <= k,
        k < names.len(),
        states.len() > k,
        actions.len() >= k,
        states[0] == (DownloadState::Searching { root: dir, record }),
        search_run(names, states, actions, clock, root, k),
        forall|i: int|
            0 <= i < k ==> (#[trigger] names[i] matches Some(n) && !contains_text(
                n@,
                record.object_path@,
            )),
    ensures
        states[j] == (DownloadState::Searching { root: dir, record }),
        forall|i: int| 0 <= i < j ==> actions[i] == DownloadAction::NextEntry,
    decreases j,
{
    if j > 0 {
        lemma_search_stays(dir, record, names, states, actions, clock, root, k, j - 1);
        let i = j - 1;
        assert(step_spec(
            states[i],
            (DownloadEvent::DirEntry { name: names[i] }),
            clock,
            root,
            states[i + 1],
            actions[i],
        ));
        assert(names[i] matches Some(n) && !contains_text(n@, record.object_path@));
    }
}

/// A directory search passes over the entries whose names do not contain
/// the link's object path and opens the first one, in the order the
/// directory yields them, whose name does.
pub proof fn law_search_opens_first_match(
    dir: String,
    record: DownloadLinks,
    names: Seq<Option<String>>,
    states: Seq<DownloadState>,
    actions: Seq<DownloadAction>,
    clock: Timestamp,
    root: Seq<char>,
    k: int,
)
    requires
        0 <= k < names.len(),
        states.len() > k + 1,
        actions.len() > k,
        states[0] == (DownloadState::Searching { root: dir, record }),
        search_run(names, states, actions, clock, root, k + 1),
        forall|i: int|
            0 <= i < k ==> (#[trigger] names[i] matches Some(n) && !contains_text(
                n@,
                record.object_path@,
            )),
        names[k] matches Some(n) && contains_text(n@, record.object_path@),
    ensures
        forall|i: int| 0 <= i < k ==> actions[i] == DownloadAction::NextEntry,
        actions[k] matches DownloadAction::OpenFile { root: d, name: f } && d@ == dir@ && f@
            == names[k]->0@,
        states[k + 1] is Finished,
{
    lemma_search_stays(dir, record, names, states, actions, clock, root, k, k);
    assert(step_spec(
        states[k],
        (DownloadEvent::DirEntry { name: names[k] }),
        clock,
        root,
        states[k + 1],
        actions[k],
    ));
}

/// A download requested with an identifier and one requested with the same
/// identifier upper-cased are decided alike: when the identifier reads as a
/// UUID both look up the same link, and otherwise both are refused.
pub proof fn law_request_ignores_case(
    file_id: String,
    upper_id: String,
    clock: Timestamp,
    root: Seq<char>,
    next: DownloadState,
    action: DownloadAction,
    upper_next: DownloadState,
    upper_action: DownloadAction,
)
    requires
        upper_id@ == upper_text(file_id@),
        step_spec(DownloadState::Start, (DownloadEvent::Requested { file_id }), clock, root, next, action),
        step_spec(
            DownloadState::Start,
            (DownloadEvent::Requested { file_id: upper_id }),
            clock,
            root,
            upper_next,
            upper_action,
        ),
    ensures
        spec_parse_uuid(upper_id@) == spec_parse_uuid(file_id@),
        spec_parse_uuid(file_id@) is Some ==> upper_action == action && action is LoadRecord,
        spec_parse_uuid(file_id@) is None ==> action is Fail && upper_action is Fail,
{
    lemma_parse_ignores_case(file_id@);
}

/// A link handed out by registration resolves to the stored file: requested
/// with the identifier its URL carries, it is looked up under its own id;
/// when the store answers with that link while it may be used, the video
/// directory is searched; and the search opens the first entry whose name
/// contains the link's object path, passing over the entries before it.
pub proof fn law_registered_link_resolves_to_file(
    l: DownloadLinks,
    record: Option<YtHistory>,
    now: Timestamp,
    id: u128,
    envs: Envs,
    file_id: String,
    clock: Timestamp,
    root: Seq<char>,
    first_next: DownloadState,
    first_action: DownloadAction,
    found_next: DownloadState,
    found_action: DownloadAction,
    names: Seq<Option<String>>,
    states: Seq<DownloadState>,
    actions: Seq<DownloadAction>,
    k: int,
)
    requires
        links_built(l, record, now, id, envs),
        file_id@ == url_link_id(l.url@),
        step_spec(DownloadState::Start, (DownloadEvent::Requested { file_id }), clock, root, first_next, first_action),
        l.available_at(clock),
        step_spec(first_next, (DownloadEvent::RecordLoaded { record: Some(l) }), clock, root, found_next, found_action),
        0 <= k < names.len(),
        states.len() > k + 1,
        actions.len() > k,
        states[0] == found_next,
        search_run(names, states, actions, clock, root, k + 1),
        forall|i: int|
            0 <= i < k ==> (#[trigger] names[i] matches Some(n) && !contains_text(
                n@,
                l.object_path@,
            )),
        names[k] matches Some(n) && contains_text(n@, l.object_path@),
    ensures
        first_action == (DownloadAction::LoadRecord { id: l.id }),
        found_action matches DownloadAction::ScanDir { root: d } && d@ == root,
        forall|i: int| 0 <= i < k ==> actions[i] == DownloadAction::NextEntry,
        actions[k] matches DownloadAction::OpenFile { root: d, name: f } && d@ == root && f@
            == names[k]->0@,
{
    law_request_looks_up_registered_link(l, record, now, id, envs, file_id, clock, root, first_next, first_action);
    let f = first_next->file_id;
    law_found_link_is_searched(l, record, now, id, envs, f, clock, root, found_next, found_action);
    let dir = found_next->root;
    law_search_opens_first_match(dir, l, names, states, actions, clock, root, k);
}

/// Steps `0..n` of a download: each state, fed the event of that step and
/// the clock reading of that step, steps to the next state with the
/// recorded action.
pub open spec fn download_run(
    events: Seq<DownloadEvent>,
    states: Seq<DownloadState>,
    actions: Seq<DownloadAction>,
    clocks: Seq<Timestamp>,
    root: Seq<char>,
    n: int,
) -> bool {
    forall|i: int|
        0 <= i < n ==> #[trigger] step_spec(
            states[i],
            events[i],
            clocks[i],
            root,
            states[i + 1],
            actions[i],
        )
}

/// Two refusals for the same reason (and the same link, where there is one).
pub open spec fn same_refusal(a: DownloadError, b: DownloadError) -> bool {
    match (a, b) {
        (DownloadError::InvalidId { .. }, DownloadError::InvalidId { .. }) => true,
        (DownloadError::RecordNotFound { .. }, DownloadError::RecordNotFound { .. }) => true,
        (DownloadError::Expired { record: r }, DownloadError::Expired { record: q }) => r == q,
        (DownloadError::FileNameNotUtf8, DownloadError::FileNameNotUtf8) => true,
        (DownloadError::FileNotFound { record: r }, DownloadError::FileNotFound { record: q }) => r
            == q,
        _ => false,
    }
}

/// Two actions that do the same: the same lookup, the same directory, the
/// same file, or a refusal for the same reason.
pub open spec fn same_decision(a: DownloadAction, b: DownloadAction) -> bool {
    match (a, b) {
        (DownloadAction::LoadRecord { id: x }, DownloadAction::LoadRecord { id: y }) => x == y,
        (DownloadAction::ScanDir { root: r }, DownloadAction::ScanDir { root: q }) => r@ == q@,
        (DownloadAction::NextEntry, DownloadAction::NextEntry) => true,
        (
            DownloadAction::OpenFile { root: r, name: m },
            DownloadAction::OpenFile { root: q, name: n },
        ) => r@ == q@ && m@ == n@,
        (DownloadAction::Fail { error: e }, DownloadAction::Fail { error: f }) => same_refusal(e, f),
        _ => false,
    }
}

/// Two downloads stand at the same point, having decided alike so far.
pub open spec fn corresponding(s: DownloadState, t: DownloadState) -> bool {
    match (s, t) {
        (DownloadState::Start, DownloadState::Start) => true,
        (DownloadState::AwaitingRecord { .. }, DownloadState::AwaitingRecord { .. }) => true,
        (
            DownloadState::Searching { root: d, record: r },
            DownloadState::Searching { root: e, record: q },
        ) => d@ == e@ && r == q,
        (DownloadState::Finished, DownloadState::Finished) => true,
        _ => false,
    }
}

/// The same observation, except that a request's identifier may be
/// upper-cased in the second.
pub open spec fn alike_events(a: DownloadEvent, b: DownloadEvent) -> bool {
    ||| a == b
    ||| (a matches DownloadEvent::Requested { file_id: f } && b matches DownloadEvent::Requested {
        file_id: g,
    } && g@ == upper_text(f@))
}

proof fn lemma_alike_step(
    s: DownloadState,
    t: DownloadState,
    a: DownloadEvent,
    b: DownloadEvent,
    clock: Timestamp,
    root: Seq<char>,
    s2: DownloadState,
    x: DownloadAction,
    t2: DownloadState,
    y: DownloadAction,
)
    requires
        corresponding(s, t),
        alike_events(a, b),
        step_spec(s, a, clock, root, s2, x),
        step_spec(t, b, clock, root, t2, y),
    ensures
        same_decision(x, y),
        corresponding(s2, t2),
{
    match a {
        DownloadEvent::Requested { file_id: f } => {
            lemma_parse_ignores_case(f@);
        },
        _ => {},
    }
}

proof fn lemma_alike_run(
    events: Seq<DownloadEvent>,
    upper_events: Seq<DownloadEvent>,
    states: Seq<DownloadState>,
    upper_states: Seq<DownloadState>,
    actions: Seq<DownloadAction>,
    upper_actions: Seq<DownloadAction>,
    clocks: Seq<Timestamp>,
    root: Seq<char>,
    n: int,
    j: int,
)
    requires
        0 <= j <= n,
        corresponding(states[0], upper_states[0]),
        forall|i: int| 0 <= i < n ==> alike_events(#[trigger] events[i], upper_events[i]),
        download_run(events, states, actions, clocks, root, n),
        download_run(upper_events, upper_states, upper_actions, clocks, root, n),
    ensures
        corresponding(states[j], upper_states[j]),
        forall|i: int| 0 <= i < j ==> same_decision(#[trigger] actions[i], upper_actions[i]),
    decreases j,
{
    if j > 0 {
        let i = j - 1;
        lemma_alike_run(
            events,
            upper_events,
            states,
            upper_states,
            actions,
            upper_actions,
            clocks,
            root,
            n,
            i,
        );
        assert(alike_events(events[i], upper_events[i]));
        assert(step_spec(states[i], events[i], clocks[i], root, states[i + 1], actions[i]));
        assert(step_spec(
            upper_states[i],
            upper_events[i],
            clocks[i],
            root,
            upper_states[i + 1],
            upper_actions[i],
        ));
        lemma_alike_step(
            states[i],
            upper_states[i],
            events[i],
            upper_events[i],
            clocks[i],
            root,
            states[i + 1],
            actions[i],
            upper_states[i + 1],
            upper_actions[i],
        );
    }
}

/// Two downloads, one requested with an identifier and the other with that
/// identifier upper-cased, that then observe the same lookup answers,
/// directory entries and clock readings, decide alike at every step: they
/// look up the same link, search the same directory, open the same file, or
/// are refused for the same reason.
pub proof fn law_upper_case_download_alike(
    events: Seq<DownloadEvent>,
    upper_events: Seq<DownloadEvent>,
    states: Seq<DownloadState>,
    upper_states: Seq<DownloadState>,
    actions: Seq<DownloadAction>,
    upper_actions: Seq<DownloadAction>,
    clocks: Seq<Timestamp>,
    root: Seq<char>,
    n: int,
)
    requires
        0 < n,
        states[0] is Start,
        upper_states[0] is Start,
        events[0] matches DownloadEvent::Requested { file_id: f } && upper_events[0] matches DownloadEvent::Requested {
            file_id: g,
        } && g@ == upper_text(f@),
        forall|i: int| 1 <= i < n ==> #[trigger] upper_events[i] == events[i],
        download_run(events, states, actions, clocks, root, n),
        download_run(upper_events, upper_states, upper_actions, clocks, root, n),
    ensures
        forall|i: int| 0 <= i < n ==> same_decision(#[trigger] actions[i], upper_actions[i]),
{
    assert forall|i: int| 0 <= i < n implies alike_events(#[trigger] events[i], upper_events[i]) by {
        if i >= 1 {
            assert(upper_events[i] == events[i]);
        }
    }
    lemma_alike_run(
        events,
        upper_events,
        states,
        upper_states,
        actions,
        upper_actions,
        clocks,
        root,
        n,
        n,
    );
}

/// A text contains every text that stands in it, wherever it stands: for
/// any text before and after it, however long.
pub proof fn law_contains_wherever_it_stands(before: Seq<char>, needle: Seq<char>, after: Seq<char>)
    ensures
        contains_text(before + needle + after, needle),
{
    let h = before + needle + after;
    assert(h.subrange(before.len() as int, (before.len() + needle.len()) as int) =~= needle);
    assert(occurs_at(h, needle, before.len() as int));
}

/// `needle` stands in `hay` at position `i`, compared character by character.
pub open spec fn stands_at(hay: Seq<char>, needle: Seq<char>, i: int) -> bool {
    0 <= i && i + needle.len() <= hay.len() && forall|j: int|
        0 <= j < needle.len() ==> #[trigger] hay[i + j] == needle[j]
}

/// A text contains another only where the other stands in it, character for
/// character, at some position.
pub proof fn law_contains_only_what_stands(hay: Seq<char>, needle: Seq<char>)
    requires
        contains_text(hay, needle),
    ensures
        exists|i: int| #[trigger] stands_at(hay, needle, i),
{
    let i = choose|i: int| occurs_at(hay, needle, i);
    assert forall|j: int| 0 <= j < needle.len() implies #[trigger] hay[i + j] == needle[j] by {
        assert(hay.subrange(i, i + needle.len())[j] == hay[i + j]);
    }
    assert(stands_at(hay, needle, i));
}

/// During a directory search, an entry whose name holds the link's object
/// path anywhere is opened, under its own name and in the searched
/// directory.
pub proof fn law_entry_holding_object_path_is_opened(
    dir: String,
    record: DownloadLinks,
    name: String,
    before: Seq<char>,
    after: Seq<char>,
    clock: Timestamp,
    root: Seq<char>,
    next: DownloadState,
    action: DownloadAction,
)
    requires
        name@ == before + record.object_path@ + after,
        step_spec(
            (DownloadState::Searching { root: dir, record }),
            (DownloadEvent::DirEntry { name: Some(name) }),
            clock,
            root,
            next,
            action,
        ),
    ensures
        next is Finished,
        action matches DownloadAction::OpenFile { root: d, name: n } && d@ == dir@ && n@ == name@,
{
    law_contains_wherever_it_stands(before, record.object_path@, after);
}

/// Every state a step leads to, short of the end, waits for the events its
/// action asks for: after a lookup request, the lookup's answer, whatever it
/// is; after a request to read the directory, its next entry or its end.
pub proof fn law_step_awaits_what_it_asks(
    state: DownloadState,
    event: DownloadEvent,
    clock: Timestamp,
    root: Seq<char>,
    next: DownloadState,
    action: DownloadAction,
    record: Option<DownloadLinks>,
    name: Option<String>,
)
    requires
        step_spec(state, event, clock, root, next, action),
    ensures
        action is LoadRecord ==> accepts(next, (DownloadEvent::RecordLoaded { record })),
        action is ScanDir || action is NextEntry ==> accepts(
            next,
            (DownloadEvent::DirEntry { name }),
        ) && accepts(next, DownloadEvent::DirEnd),
{
}

/// A download waiting for the lookup takes the lookup's answer, whatever
/// the requested identifier and whatever the answer.
pub proof fn law_lookup_answer_is_awaited(file_id: String, record: Option<DownloadLinks>)
    ensures
        accepts(
            (DownloadState::AwaitingRecord { file_id }),
            (DownloadEvent::RecordLoaded { record }),
        ),
        accepts(DownloadState::Start, (DownloadEvent::Requested { file_id })),
{
}

/// A link made from an existing record serves that record: its history id is
/// the record's id and its object path is the record's external id,
/// character for character.
pub proof fn law_link_keeps_record_fields(
    res: Result<DownloadLinks, RegisterError>,
    r: YtHistory,
    now: Timestamp,
    id: u128,
    envs: Envs,
)
    requires
        build_outcome(res, Some(r), now, id, envs),
        res is Ok,
    ensures
        res->Ok_0.object_path@ == r.app_external_id@,
        res->Ok_0.yt_history_id == r.id,
        res->Ok_0.id == id,
        res->Ok_0.created_at == now,
{
}

/// The decimal numeral of a number reads back as that number.
pub proof fn law_decimal_reads_back(n: u64)
    ensures
        spec_parse_u64(decimal(n as nat)) == Some(n),
        spec_parse_u64(seq!['+'] + decimal(n as nat)) == Some(n),
{
    lemma_decimal_digits(n as nat);
    let d = decimal(n as nat);
    assert((seq!['+'] + d).drop_first() =~= d);
    assert(is_digit(d[0]));
}

proof fn lemma_decimal_digits(n: nat)
    ensures
        decimal(n).len() > 0,
        all_digits(decimal(n)),
        digits_value(decimal(n)) == n,
    decreases n,
{
    let d = decimal(n);
    if n < 10 {
        assert(d.drop_last() =~= Seq::<char>::empty());
        assert(d.last() == digit_char(n as int));
        assert(digit_char(n as int) as u32 == 48 + n);
        assert(digits_value(Seq::<char>::empty()) == 0);
    } else {
        lemma_decimal_digits(n / 10);
        assert(d.drop_last() =~= decimal(n / 10));
        assert(d.last() == digit_char((n % 10) as int));
        assert(digit_char((n % 10) as int) as u32 == 48 + n % 10);
        assert((n / 10) * 10 + n % 10 == n);
        assert forall|i: int| 0 <= i < d.len() implies is_digit(#[trigger] d[i]) by {
            if i < d.len() - 1 {
                assert(d[i] == decimal(n / 10)[i]);
            }
        }
    }
}

/// A text holding a character that is neither a digit nor a leading `+`
/// does not read as a number.
pub proof fn law_parse_refuses_non_digits(s: Seq<char>, i: int)
    requires
        0 <= i < s.len(),
        !is_digit(s[i]),
        !(i == 0 && s[i] == '+'),
    ensures
        spec_parse_u64(s) is None,
{
    let body = if s.len() > 0 && s[0] == '+' {
        s.drop_first()
    } else {
        s
    };
    if s[0] == '+' {
        assert(body[i - 1] == s[i]);
    } else {
        assert(body[i] == s[i]);
    }
}

/// The printable ASCII characters other than the space are not white space,
/// so a text holding one of them is not blank.
pub proof fn law_printable_is_not_blank(s: Seq<char>, i: int)
    requires
        0 <= i < s.len(),
        0x21 <= s[i] as u32 <= 0x7e,
    ensures
        !is_white_space(s[i]),
        !is_blank(s),
{
}

/// An existing record is refused exactly when its external id is blank:
/// any character that is not white space, at any position and whatever the
/// length of the id, lets it through.
pub proof fn law_record_check(r: YtHistory, yt_history_id: i64, i: int)
    ensures
        spec_data_check(None, yt_history_id) == Err::<(), RegisterError>(
            RegisterError::RecordNotFound { yt_history_id },
        ),
        0 <= i < r.app_external_id@.len() && !is_white_space(r.app_external_id@[i])
            ==> spec_data_check(Some(r), yt_history_id) == Ok::<(), RegisterError>(()),
        (forall|j: int| 0 <= j < r.app_external_id@.len() ==> is_white_space(r.app_external_id@[j]))
            ==> spec_data_check(Some(r), yt_history_id) == Err::<(), RegisterError>(
            RegisterError::EmptyExternalId { yt_history_id },
        ),
{
}

/// The URL handed out for a link is `http://`, the host, `:`, the port's
/// decimal numeral (which reads back as the port), and then
/// `/rfserve/download/` and the link's identifier.
pub proof fn law_url_layout(host: Seq<char>, port: u16, id: u128)
    ensures
        ({
            let u = link_url(host, port, id);
            &&& u.len() >= 62 + host.len()
            &&& u.subrange(0, 7) == seq!['h', 't', 't', 'p', ':', '/', '/']
            &&& u.subrange(7, 7 + host.len() as int) == host
            &&& u[7 + host.len() as int] == ':'
            &&& spec_parse_u64(u.subrange(8 + host.len() as int, u.len() - 54)) == Some(port as u64)
            &&& u.subrange(u.len() - 54, u.len() - 36) == seq![
                '/',
                'r',
                'f',
                's',
                'e',
                'r',
                'v',
                'e',
                '/',
                'd',
                'o',
                'w',
                'n',
                'l',
                'o',
                'a',
                'd',
                '/',
            ]
            &&& u.subrange(u.len() - 36, u.len() as int) == hyphenated(id)
        }),
{
    let u = link_url(host, port, id);
    let d = decimal(port as nat);
    lemma_parse_hyphenated(id);
    lemma_decimal_digits(port as nat);
    law_decimal_reads_back(port as u64);
    assert(u.subrange(0, 7) =~= seq!['h', 't', 't', 'p', ':', '/', '/']);
    assert(u.subrange(7, 7 + host.len() as int) =~= host);
    assert(u.subrange(8 + host.len() as int, u.len() - 54) =~= d);
    assert(u.subrange(u.len() - 54, u.len() - 36) =~= seq![
        '/',
        'r',
        'f',
        's',
        'e',
        'r',
        'v',
        'e',
        '/',
        'd',
        'o',
        'w',
        'n',
        'l',
        'o',
        'a',
        'd',
        '/',
    ]);
    assert(u.subrange(u.len() - 36, u.len() as int) =~= hyphenated(id));
}

/// A number's decimal numeral has no leading zero (zero itself is `0`),
/// and leading zeros or a `+` in front do not change what a numeral reads
/// as.
pub proof fn law_decimal_shape(n: u64)
    ensures
        decimal(0) == seq!['0'],
        n > 0 ==> decimal(n as nat)[0] != '0',
        spec_parse_u64(seq!['0', '0'] + decimal(n as nat)) == Some(n),
{
    lemma_decimal_digits(n as nat);
    lemma_decimal_leading(n as nat);
    let d = decimal(n as nat);
    let z = seq!['0', '0'] + d;
    assert(z.drop_last() =~= seq!['0', '0'] + d.drop_last()) by {
        assert(d.len() > 0);
    }
    lemma_zeros_keep_value(d);
    assert(all_digits(z)) by {
        assert forall|i: int| 0 <= i < z.len() implies is_digit(#[trigger] z[i]) by {
            if i >= 2 {
                assert(z[i] == d[i - 2]);
            }
        }
    }
    assert(z[0] != '+');
}

proof fn lemma_decimal_leading(n: nat)
    ensures
        n > 0 ==> decimal(n)[0] != '0',
        n >= 10 ==> decimal(n)[0] == decimal(n / 10)[0],
    decreases n,
{
    if n >= 10 {
        lemma_decimal_digits(n / 10);
        lemma_decimal_leading(n / 10);
    }
}

proof fn lemma_zeros_keep_value(d: Seq<char>)
    ensures
        digits_value(seq!['0', '0'] + d) == digits_value(d),
    decreases d.len(),
{
    let z = seq!['0', '0'] + d;
    if d.len() == 0 {
        assert(z.drop_last() =~= seq!['0']);
        assert(seq!['0'].drop_last() =~= Seq::<char>::empty());
        assert(z.last() == '0');
        assert(seq!['0'].last() == '0');
        assert(digits_value(Seq::<char>::empty()) == 0);
        assert(digits_value(seq!['0']) == 0);
    } else {
        assert(z.drop_last() =~= seq!['0', '0'] + d.drop_last());
        assert(z.last() == d.last());
        lemma_zeros_keep_value(d.drop_last());
    }
}

/// The ASCII white-space characters (space, tab, line feed, vertical tab,
/// form feed, carriage return) are white space, so an id made of them alone
/// is refused as blank.
pub proof fn law_ascii_white_space(r: YtHistory, yt_history_id: i64)
    ensures
        is_white_space(' ') && is_white_space('\t') && is_white_space('\n') && is_white_space(
            '\r',
        ) && is_white_space('\x0b') && is_white_space('\x0c'),
        (forall|j: int|
            0 <= j < r.app_external_id@.len() ==> #[trigger] r.app_external_id@[j] == ' '
                || r.app_external_id@[j] == '\t' || r.app_external_id@[j] == '\n'
                || r.app_external_id@[j] == '\r') ==> spec_data_check(Some(r), yt_history_id)
            == Err::<(), RegisterError>(RegisterError::EmptyExternalId { yt_history_id }),
{
}

/// The hyphenated form of a UUID is written in lower case: hyphens at
/// positions 8, 13, 18 and 23, and otherwise digits and the letters `a` to
/// `f`.
pub proof fn law_hyphenated_is_lower_case(v: u128, i: int)
    requires
        0 <= i < 36,
    ensures
        (i == 8 || i == 13 || i == 18 || i == 23) ==> hyphenated(v)[i] == '-',
        !(i == 8 || i == 13 || i == 18 || i == 23) ==> (48 <= hyphenated(v)[i] as u32 <= 57 || 97
            <= hyphenated(v)[i] as u32 <= 102),
{
    lemma_hyphenated_lower(v, i);
}

/// A link may be used from its creation to its expiry, both included, and
/// at no instant before or after; instants are ordered by their seconds, and
/// within a second by their nanoseconds, whatever their offsets.
pub proof fn law_usable_window(l: DownloadLinks, t: Timestamp)
    ensures
        l.created_at.not_after(l.expires_at) ==> l.available_at(l.created_at) && l.available_at(
            l.expires_at,
        ),
        t.secs > l.expires_at.secs ==> !l.available_at(t),
        t.secs < l.created_at.secs ==> !l.available_at(t),
        t.secs == l.expires_at.secs && t.nanos > l.expires_at.nanos ==> !l.available_at(t),
        l.created_at.secs < t.secs < l.expires_at.secs ==> l.available_at(t),
{
}

/// The answer to the lookup decides: no link is refused as not found; a
/// link outside its window at the clock reading is refused as expired.
pub proof fn law_lookup_outcomes(
    file_id: String,
    record: Option<DownloadLinks>,
    clock: Timestamp,
    root: Seq<char>,
    next: DownloadState,
    action: DownloadAction,
)
    requires
        step_spec(
            (DownloadState::AwaitingRecord { file_id }),
            (DownloadEvent::RecordLoaded { record }),
            clock,
            root,
            next,
            action,
        ),
    ensures
        next is Finished || next is Searching,
        record is None ==> action matches DownloadAction::Fail {
            error: DownloadError::RecordNotFound { .. },
        },
        record is Some && (clock.secs > record->0.expires_at.secs || clock.secs
            < record->0.created_at.secs) ==> action == (DownloadAction::Fail {
            error: DownloadError::Expired { record: record->0 },
        }),
{
}

/// During a directory search: an entry whose name holds the object path at
/// no position is passed over and the search goes on unchanged; an entry
/// whose name is not valid Unicode, or the end of the directory, ends the
/// download with a refusal.
pub proof fn law_search_outcomes(
    dir: String,
    record: DownloadLinks,
    event: DownloadEvent,
    clock: Timestamp,
    root: Seq<char>,
    next: DownloadState,
    action: DownloadAction,
)
    requires
        step_spec((DownloadState::Searching { root: dir, record }), event, clock, root, next, action),
    ensures
        event matches DownloadEvent::DirEntry { name: Some(n) } && (forall|i: int|
            !#[trigger] stands_at(n@, record.object_path@, i)) ==> next == (DownloadState::Searching {
            root: dir,
            record,
        }) && action == DownloadAction::NextEntry,
        event == (DownloadEvent::DirEntry { name: None }) ==> next is Finished && action == (
        DownloadAction::Fail { error: DownloadError::FileNameNotUtf8 }),
        event == DownloadEvent::DirEnd ==> next is Finished && action == (DownloadAction::Fail {
            error: DownloadError::FileNotFound { record },
        }),
{
    match event {
        DownloadEvent::DirEntry { name: Some(n) } => {
            if forall|i: int| !#[trigger] stands_at(n@, record.object_path@, i) {
                if contains_text(n@, record.object_path@) {
                    law_contains_only_what_stands(n@, record.object_path@);
                }
            }
        },
        _ => {},
    }
}

/// A download requested with the hyphenated form of a UUID, in either case,
/// looks up that UUID.
pub proof fn law_request_reads_id(
    v: u128,
    file_id: String,
    clock: Timestamp,
    root: Seq<char>,
    next: DownloadState,
    action: DownloadAction,
)
    requires
        file_id@ == hyphenated(v) || file_id@ == upper_text(hyphenated(v)),
        step_spec(DownloadState::Start, (DownloadEvent::Requested { file_id }), clock, root, next, action),
    ensures
        action == (DownloadAction::LoadRecord { id: v }),
{
    lemma_parse_hyphenated(v);
    lemma_parse_ignores_case(hyphenated(v));
}

/// The attachment header names the file between double quotes, after
/// `attachment; filename=`.
pub proof fn law_content_disposition_layout(fname: Seq<char>)
    ensures
        ({
            let h = spec_content_disposition(fname);
            &&& h.len() == fname.len() + 23
            &&& h.subrange(0, 22) == seq![
                'a',
                't',
                't',
                'a',
                'c',
                'h',
                'm',
                'e',
                'n',
                't',
                ';',
                ' ',
                'f',
                'i',
                'l',
                'e',
                'n',
                'a',
                'm',
                'e',
                '=',
                '"',
            ]
            &&& h.subrange(22, 22 + fname.len() as int) == fname
            &&& h[22 + fname.len() as int] == '"'
        }),
{
    let h = spec_content_disposition(fname);
    assert(h.subrange(0, 22) =~= seq![
        'a',
        't',
        't',
        'a',
        'c',
        'h',
        'm',
        'e',
        'n',
        't',
        ';',
        ' ',
        'f',
        'i',
        'l',
        'e',
        'n',
        'a',
        'm',
        'e',
        '=',
        '"',
    ]);
    assert(h.subrange(22, 22 + fname.len() as int) =~= fname);
}

} // verus!
