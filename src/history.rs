use vstd::prelude::*;

verus! {

/// How many of the newest list items are read; older history is left out.
pub const MAX_ITEMS: usize = 20;

/// One conversation record, oldest first in the sequences that hold them.
#[derive(Clone, Debug)]
pub struct WechatHistory {
    pub text: String,
    pub sender_name: String,
    pub sender_type: String,
}

/// The mathematical value of a conversation record.
pub struct HistoryView {
    pub text: Seq<char>,
    pub sender_name: Seq<char>,
    pub sender_type: Seq<char>,
}

impl View for WechatHistory {
    type V = HistoryView;

    open spec fn view(&self) -> HistoryView {
        HistoryView {
            text: self.text@,
            sender_name: self.sender_name@,
            sender_type: self.sender_type@,
        }
    }
}

/// A text element found below a message item.
#[derive(Clone, Debug)]
pub struct TextNode {
    /// Its accessible name.
    pub name: String,
    /// Its structural parent was found and has no next sibling.
    pub last_in_parent: bool,
}

/// What was read of one message item of the conversation list.
#[derive(Clone, Debug)]
pub struct RawMessage {
    /// The item's own accessible name, where it could be read.
    pub name: Option<String>,
    /// The name of the button below the item's last child, where there is one.
    pub sender: Option<String>,
    /// The text elements among the item's descendants, in tree order, where
    /// the search for them succeeded.
    pub texts: Option<Vec<TextNode>>,
}

/// What was read of the conversation list container.
#[derive(Clone, Debug)]
pub enum MessageList {
    /// No list container was found: no conversation is open.
    Missing,
    /// The container was found but its items could not be enumerated.
    Unreadable,
    /// The container's message items, oldest first.
    Items(Vec<RawMessage>),
}

#[derive(Clone, Copy, Debug, PartialEq, Eq)]
pub enum ExtractError {
    NoConversationOpen,
    NoExtractableHistory,
}

impl ExtractError {
    pub open spec fn message_spec(&self) -> Seq<char> {
        match self {
            ExtractError::NoConversationOpen => "请先打开一个聊天页面"@,
            ExtractError::NoExtractableHistory => "未找到可分析的聊天记录"@,
        }
    }

    /// The fixed text shown to the user for this error.
    pub fn message(&self) -> (r: String)
        ensures
            r@ == self.message_spec(),
    {
        match self {
            ExtractError::NoConversationOpen => String::from_str("请先打开一个聊天页面"),
            ExtractError::NoExtractableHistory => String::from_str("未找到可分析的聊天记录"),
        }
    }
}

/// The placeholder texts that stand for messages without text (pictures,
/// stickers, music, videos, mini programs).
pub struct NoiseFilter {
    markers: Vec<String>,
}

impl View for NoiseFilter {
    type V = Seq<Seq<char>>;

    closed spec fn view(&self) -> Seq<Seq<char>> {
        self.markers@.map_values(|m: String| m@)
    }
}

impl NoiseFilter {
    /// A filter with the given markers.
    pub fn new(markers: Vec<String>) -> (r: Self)
        ensures
            r@ == markers@.map_values(|m: String| m@),
    {
        NoiseFilter { markers }
    }

    /// The chat application's own placeholders.
    pub fn standard() -> (r: Self)
        ensures
            r@ == seq!["[图片]"@, "[动画表情]"@, "[音乐]"@, "[视频]"@, "[小程序]"@],
    {
        let markers = vec![
            String::from_str("[图片]"),
            String::from_str("[动画表情]"),
            String::from_str("[音乐]"),
            String::from_str("[视频]"),
            String::from_str("[小程序]"),
        ];
        let r = NoiseFilter { markers };
        assert(r@ =~= seq!["[图片]"@, "[动画表情]"@, "[音乐]"@, "[视频]"@, "[小程序]"@]);
        r
    }

    /// Whether `text` is exactly one of the markers.
    pub fn is_noise(&self, text: &String) -> (r: bool)
        ensures
            r == self@.contains(text@),
    {
        let mut i: usize = 0;
        while i < self.markers.len()
            invariant
                i <= self.markers@.len(),
                forall|j: int| 0 <= j < i ==> self@[j] != text@,
            decreases self.markers@.len() - i,
        {
            if self.markers[i].eq(text) {
                assert(self@[i as int] == text@);
                return true;
            }
            i += 1;
        }
        false
    }
}

/// A text element that carries the message body: it has a name and is the
/// last element under its parent (decorations and avatars come before it).
pub open spec fn is_body_text(n: TextNode) -> bool {
    n.name@.len() > 0 && n.last_in_parent
}

/// The name of the first body text element, in tree order.
pub open spec fn body_override(ns: Seq<TextNode>) -> Option<Seq<char>>
    decreases ns.len(),
{
    if ns.len() == 0 {
        None
    } else if is_body_text(ns[0]) {
        Some(ns[0].name@)
    } else {
        body_override(ns.drop_first())
    }
}

/// The item's body override, where its text elements could be read and one
/// of them carries the body.
pub open spec fn override_of(m: RawMessage) -> Option<Seq<char>> {
    if m.texts is Some {
        body_override(m.texts->0@)
    } else {
        None
    }
}

/// The text of an item: the body override where there is one, else the
/// item's own name where it could be read, else nothing. It does not depend
/// on the sender label.
pub open spec fn resolved_text(m: RawMessage) -> Seq<char> {
    match override_of(m) {
        Some(t) => t,
        None => match m.name {
            Some(n) => n@,
            None => Seq::empty(),
        },
    }
}

/// The sender of an item: its sender label where there is one, else nothing.
/// It does not depend on the text.
pub open spec fn resolved_sender(m: RawMessage) -> Seq<char> {
    match m.sender {
        Some(s) => s@,
        None => Seq::empty(),
    }
}

/// The record made of one item; every record is tagged as a user utterance.
pub open spec fn entry_of(m: RawMessage) -> HistoryView {
    HistoryView { text: resolved_text(m), sender_name: resolved_sender(m), sender_type: "USER"@ }
}

/// A record is kept when its text is neither empty nor a noise marker.
pub open spec fn is_kept(e: HistoryView, noise: Seq<Seq<char>>) -> bool {
    e.text.len() > 0 && !noise.contains(e.text)
}

/// The kept records of a run of items, in item order.
pub open spec fn entries_of(ms: Seq<RawMessage>, noise: Seq<Seq<char>>) -> Seq<HistoryView>
    decreases ms.len(),
{
    if ms.len() == 0 {
        Seq::empty()
    } else {
        let rest = entries_of(ms.drop_last(), noise);
        let e = entry_of(ms.last());
        if is_kept(e, noise) {
            rest.push(e)
        } else {
            rest
        }
    }
}

/// Where the retained tail of `n` items starts.
pub open spec fn tail_start(n: nat) -> nat {
    if n > MAX_ITEMS {
        (n - MAX_ITEMS) as nat
    } else {
        0
    }
}

/// The newest items, at most `MAX_ITEMS` of them, oldest first.
pub open spec fn retained(ms: Seq<RawMessage>) -> Seq<RawMessage> {
    ms.subrange(tail_start(ms.len()) as int, ms.len() as int)
}

pub open spec fn history_of(ms: Seq<RawMessage>, noise: Seq<Seq<char>>) -> Seq<HistoryView> {
    entries_of(retained(ms), noise)
}

/// What extraction yields for a reading of the conversation list.
pub open spec fn extract_spec(list: MessageList, noise: Seq<Seq<char>>) -> Result<
    Seq<HistoryView>,
    ExtractError,
> {
    match list {
        MessageList::Missing => Err(ExtractError::NoConversationOpen),
        MessageList::Unreadable => Err(ExtractError::NoExtractableHistory),
        MessageList::Items(v) => {
            let h = history_of(v@, noise);
            if h.len() == 0 {
                Err(ExtractError::NoExtractableHistory)
            } else {
                Ok(h)
            }
        },
    }
}

pub open spec fn views(v: Seq<WechatHistory>) -> Seq<HistoryView> {
    v.map_values(|e: WechatHistory| e@)
}

pub open spec fn result_view(r: Result<Vec<WechatHistory>, ExtractError>) -> Result<
    Seq<HistoryView>,
    ExtractError,
> {
    match r {
        Ok(v) => Ok(views(v@)),
        Err(e) => Err(e),
    }
}

/// The index of the first of the items that extraction reads, out of `n`.
pub fn retained_start(n: usize) -> (r: usize)
    ensures
        r == tail_start(n as nat),
{
    if n > MAX_ITEMS {
        n - MAX_ITEMS
    } else {
        0
    }
}

/// The name of the first body text element among `nodes`.
pub fn find_body_override(nodes: &Vec<TextNode>) -> (r: Option<String>)
    ensures
        match r {
            Some(t) => body_override(nodes@) == Some(t@),
            None => body_override(nodes@) is None,
        },
{
    let mut i: usize = 0;
    assert(nodes@.subrange(0, nodes@.len() as int) =~= nodes@);
    while i < nodes.len()
        invariant
            i <= nodes@.len(),
            body_override(nodes@) == body_override(nodes@.subrange(i as int, nodes@.len() as int)),
        decreases nodes@.len() - i,
    {
        let rest = Ghost(nodes@.subrange(i as int, nodes@.len() as int));
        assert(rest@[0] == nodes@[i as int]);
        if !nodes[i].name.as_str().is_empty() && nodes[i].last_in_parent {
            return Some(nodes[i].name.clone());
        }
        assert(rest@.drop_first() =~= nodes@.subrange(i + 1, nodes@.len() as int));
        i += 1;
    }
    None
}

/// The record made of one message item.
pub fn entry_from(m: &RawMessage) -> (e: WechatHistory)
    ensures
        e@ == entry_of(*m),
{
    let over = match &m.texts {
        Some(nodes) => find_body_override(nodes),
        None => None,
    };
    let text = match over {
        Some(t) => t,
        None => match &m.name {
            Some(name) => name.clone(),
            None => String::new(),
        },
    };
    let sender_name = match &m.sender {
        Some(sender) => sender.clone(),
        None => String::new(),
    };
    WechatHistory { text, sender_name, sender_type: String::from_str("USER") }
}

/// Turns a reading of the conversation list into the recent conversation:
/// the records of the newest `MAX_ITEMS` items, oldest first, without empty
/// or placeholder texts.
pub fn extract_history(list: &MessageList, noise: &NoiseFilter) -> (r: Result<
    Vec<WechatHistory>,
    ExtractError,
>)
    ensures
        result_view(r) == extract_spec(*list, noise@),
{
    match list {
        MessageList::Missing => Err(ExtractError::NoConversationOpen),
        MessageList::Unreadable => Err(ExtractError::NoExtractableHistory),
        MessageList::Items(items) => {
            let n = items.len();
            let start = retained_start(n);
            let mut out: Vec<WechatHistory> = Vec::new();
            let mut i: usize = start;
            while i < n
                invariant
                    n == items@.len(),
                    start == tail_start(n as nat),
                    start <= i <= n,
                    views(out@) == entries_of(items@.subrange(start as int, i as int), noise@),
                decreases n - i,
            {
                let e = entry_from(&items[i]);
                let ghost seg = items@.subrange(start as int, i as int + 1);
                assert(seg.drop_last() =~= items@.subrange(start as int, i as int));
                assert(seg.last() == items@[i as int]);
                if !e.text.as_str().is_empty() && !noise.is_noise(&e.text) {
                    out.push(e);
                    assert(views(out@) =~= entries_of(seg, noise@));
                }
                i += 1;
            }
            assert(items@.subrange(start as int, n as int) == retained(items@));
            if out.len() == 0 {
                Err(ExtractError::NoExtractableHistory)
            } else {
                Ok(out)
            }
        },
    }
}

/// The positions, within `ms`, of the items whose records are kept.
pub open spec fn kept_positions(ms: Seq<RawMessage>, noise: Seq<Seq<char>>) -> Seq<int>
    decreases ms.len(),
{
    if ms.len() == 0 {
        Seq::empty()
    } else {
        let rest = kept_positions(ms.drop_last(), noise);
        if is_kept(entry_of(ms.last()), noise) {
            rest.push(ms.len() - 1)
        } else {
            rest
        }
    }
}

proof fn lemma_kept_positions(ms: Seq<RawMessage>, noise: Seq<Seq<char>>)
    ensures
        ({
            let h = entries_of(ms, noise);
            let idx = kept_positions(ms, noise);
            &&& idx.len() == h.len()
            &&& h.len() <= ms.len()
            &&& forall|k: int| 0 <= k < h.len() ==> 0 <= #[trigger] idx[k] < ms.len()
                && h[k] == entry_of(ms[idx[k]])
            &&& forall|k: int, l: int| 0 <= k < l < h.len() ==> idx[k] < idx[l]
        }),
    decreases ms.len(),
{
    if ms.len() > 0 {
        let pre = ms.drop_last();
        lemma_kept_positions(pre, noise);
        assert forall|k: int| 0 <= k < pre.len() implies ms[k] == pre[k] by {}
    }
}

proof fn lemma_entries_kept(ms: Seq<RawMessage>, noise: Seq<Seq<char>>)
    ensures
        forall|k: int|
            0 <= k < entries_of(ms, noise).len() ==> is_kept(
                #[trigger] entries_of(ms, noise)[k],
                noise,
            ),
    decreases ms.len(),
{
    if ms.len() > 0 {
        let rest = entries_of(ms.drop_last(), noise);
        lemma_entries_kept(ms.drop_last(), noise);
        assert forall|k: int| 0 <= k < rest.len() implies entries_of(ms, noise)[k] == rest[k] by {}
    }
}

/// Truncation: of N items, extraction yields at most min(N, `MAX_ITEMS`)
/// records, each made of one of the newest `MAX_ITEMS` items, in the items'
/// order, oldest first.
pub proof fn history_is_ordered_recent_tail(ms: Seq<RawMessage>, noise: Seq<Seq<char>>)
    ensures
        history_of(ms, noise).len() <= ms.len(),
        history_of(ms, noise).len() <= MAX_ITEMS,
        exists|idx: Seq<int>|
            {
                let h = history_of(ms, noise);
                &&& (#[trigger] idx.len()) == h.len()
                &&& forall|k: int|
                    0 <= k < h.len() ==> tail_start(ms.len()) <= #[trigger] idx[k] < ms.len()
                        && h[k] == entry_of(ms[idx[k]])
                &&& forall|k: int, l: int| 0 <= k < l < h.len() ==> idx[k] < idx[l]
            },
{
    let r = retained(ms);
    let t = tail_start(ms.len()) as int;
    lemma_kept_positions(r, noise);
    let idx0 = kept_positions(r, noise);
    let idx = idx0.map_values(|i: int| i + t);
    let h = history_of(ms, noise);
    assert forall|k: int| 0 <= k < h.len() implies tail_start(ms.len()) <= #[trigger] idx[k]
        < ms.len() && h[k] == entry_of(ms[idx[k]]) by {
        assert(r[idx0[k]] == ms[idx0[k] + t]);
    }
    assert forall|k: int, l: int| 0 <= k < l < h.len() implies idx[k] < idx[l] by {
        assert(idx0[k] < idx0[l]);
    }
    assert(idx.len() == h.len());
}

/// Noise filtering: no record that extraction returns has a noise marker, or
/// nothing, as its text, wherever the item stood.
pub proof fn history_has_no_noise(list: MessageList, noise: Seq<Seq<char>>)
    ensures
        extract_spec(list, noise) is Ok ==> forall|k: int|
            0 <= k < extract_spec(list, noise)->Ok_0.len() ==> {
                let t = (#[trigger] extract_spec(list, noise)->Ok_0[k]).text;
                &&& !noise.contains(t)
                &&& t.len() > 0
            },
{
    if let MessageList::Items(v) = list {
        lemma_entries_kept(retained(v@), noise);
    }
}

/// Text precedence: the body override is the text where there is one, and
/// the item's own name where there is none; the sender label, present or
/// not, plays no part in either.
pub proof fn body_override_takes_precedence(m: RawMessage)
    ensures
        override_of(m) is Some ==> entry_of(m).text == override_of(m)->0,
        override_of(m) is None && m.name is Some ==> entry_of(m).text == m.name->0@,
        override_of(m) is None && m.name is None ==> entry_of(m).text.len() == 0,
        entry_of(m).text == entry_of(RawMessage { sender: None, ..m }).text,
{
}

} // verus!
