//! What holds of shadow topics: a topic is read in one way only, and
//! reading and assembling undo each other.
use vstd::prelude::*;
use vstd::utf8::{encode_utf8, is_ascii_chars, is_ascii_chars_concat, is_ascii_chars_encode_utf8};
use crate::text::{
    lemma_occurrences_concat, lemma_occurrences_pair, lemma_occurrences_single, occurrences,
};
use crate::topic::{
    assemble_spec, bridge_text, classifies_as, has_type, is_name_char, op_text, reads_as,
    starts_with_bridge, topic_text, topic_text_tagged, valid_name, valid_names, ShadowOperation,
    ShadowTopicView, TopicError, TopicType, SHADOW_NAME_LIMIT, THING_NAME_LIMIT, TOPIC_CAPACITY,
};

verus! {

/// A text is cut at the first occurrence of a character in one way only.
pub proof fn lemma_split_unique(
    a1: Seq<char>,
    r1: Seq<char>,
    a2: Seq<char>,
    r2: Seq<char>,
    c: char,
)
    requires
        !a1.contains(c),
        !a2.contains(c),
        a1.push(c) + r1 == a2.push(c) + r2,
    ensures
        a1 == a2,
        r1 == r2,
{
    let w = a1.push(c) + r1;
    if a1.len() < a2.len() {
        assert(w[a1.len() as int] == c);
        assert((a2.push(c) + r2)[a1.len() as int] == a2[a1.len() as int]);
        assert(a2.contains(a2[a1.len() as int]));
    }
    if a2.len() < a1.len() {
        assert((a2.push(c) + r2)[a2.len() as int] == c);
        assert(w[a2.len() as int] == a1[a2.len() as int]);
        assert(a1.contains(a1[a2.len() as int]));
    }
    assert forall|i: int| 0 <= i < a1.len() implies a1[i] == a2[i] by {
        assert(w[i] == a1[i]);
        assert((a2.push(c) + r2)[i] == a2[i]);
    }
    assert(a1 =~= a2);
    assert(r1.len() == r2.len()) by {
        assert(w.len() == a1.len() + 1 + r1.len());
        assert((a2.push(c) + r2).len() == a2.len() + 1 + r2.len());
    }
    assert forall|i: int| 0 <= i < r1.len() implies r1[i] == r2[i] by {
        assert(w[a1.len() + 1 + i] == r1[i]);
        assert((a2.push(c) + r2)[a2.len() + 1 + i] == r2[i]);
    }
    assert(r1 =~= r2);
}

/// No name holds a `/`.
pub proof fn lemma_name_has_no_separator(s: Seq<char>, limit: int)
    requires
        valid_name(s, limit),
    ensures
        !s.contains('/'),
{
    if s.contains('/') {
        let k = choose|k: int| 0 <= k < s.len() && s[k] == '/';
        assert(is_name_char(s[k]));
    }
}

/// A name is written in ASCII and holds no `/`.
proof fn lemma_name_is_plain(s: Seq<char>, limit: int)
    requires
        valid_name(s, limit),
    ensures
        is_ascii_chars(s),
        occurrences(s, '/') == 0,
{
    assert forall|i: int| 0 <= i < s.len() implies '\0' <= #[trigger] s[i] <= '\u{7f}' by {
        assert(is_name_char(s[i]));
    }
    lemma_name_has_no_separator(s, limit);
    assert forall|i: int| 0 <= i < s.len() && s[i] == '/' implies i == 0 by {
        assert(s.contains(s[i]));
    }
    lemma_occurrences_single(s, '/', 0);
}

/// Where the text of an operation holds a `/`: in at most one place.
pub open spec fn op_separator(op: ShadowOperation) -> int {
    match op {
        ShadowOperation::Get | ShadowOperation::Delete | ShadowOperation::Update => -1,
        ShadowOperation::GetAccepted | ShadowOperation::GetRejected => 3,
        _ => 6,
    }
}

/// Number of characters in the text of an operation.
pub open spec fn op_length(op: ShadowOperation) -> nat {
    match op {
        ShadowOperation::Get => 3,
        ShadowOperation::Delete | ShadowOperation::Update => 6,
        ShadowOperation::GetAccepted | ShadowOperation::GetRejected
        | ShadowOperation::UpdateDelta => 12,
        ShadowOperation::UpdateDocuments => 16,
        _ => 15,
    }
}

/// The first character of the text of an operation.
pub open spec fn op_initial(op: ShadowOperation) -> char {
    match op {
        ShadowOperation::Get | ShadowOperation::GetAccepted | ShadowOperation::GetRejected => 'g',
        ShadowOperation::Delete | ShadowOperation::DeleteAccepted
        | ShadowOperation::DeleteRejected => 'd',
        _ => 'u',
    }
}

/// The character that follows the `/` in the text of an operation that
/// holds one.
pub open spec fn op_outcome_initial(op: ShadowOperation) -> char {
    match op {
        ShadowOperation::GetAccepted | ShadowOperation::DeleteAccepted
        | ShadowOperation::UpdateAccepted => 'a',
        ShadowOperation::GetRejected | ShadowOperation::DeleteRejected
        | ShadowOperation::UpdateRejected => 'r',
        _ => 'd',
    }
}

/// The shape of the text of an operation: its length, its first character,
/// the one place where it may hold a `/`, and the character after it. The
/// text is written in ASCII.
pub proof fn lemma_op_text_shape(op: ShadowOperation)
    ensures
        op_text(op).len() == op_length(op),
        op_text(op)[0] == op_initial(op),
        forall|i: int|
            0 <= i < op_text(op).len() && #[trigger] op_text(op)[i] == '/' ==> i == op_separator(
                op,
            ),
        op_separator(op) >= 0 ==> op_text(op)[op_separator(op) + 1] == op_outcome_initial(op),
        is_ascii_chars(op_text(op)),
{
    reveal_strlit("get");
    reveal_strlit("get/accepted");
    reveal_strlit("get/rejected");
    reveal_strlit("delete");
    reveal_strlit("delete/accepted");
    reveal_strlit("delete/rejected");
    reveal_strlit("update");
    reveal_strlit("update/accepted");
    reveal_strlit("update/rejected");
    reveal_strlit("update/documents");
    reveal_strlit("update/delta");
}

/// The text of an operation holds a `/` at `op_separator` and nowhere else.
pub proof fn lemma_op_text_separator(op: ShadowOperation, i: int)
    requires
        0 <= i < op_text(op).len(),
        op_text(op)[i] == '/',
    ensures
        i == op_separator(op),
{
    lemma_op_text_shape(op);
}

/// Two operations with the same text are the same operation.
pub proof fn lemma_op_text_injective(a: ShadowOperation, b: ShadowOperation)
    requires
        op_text(a) == op_text(b),
    ensures
        a == b,
{
    lemma_op_text_shape(a);
    lemma_op_text_shape(b);
}

/// The text of an operation is written in ASCII and holds one `/` at most.
proof fn lemma_op_text_is_plain(op: ShadowOperation)
    ensures
        is_ascii_chars(op_text(op)),
        occurrences(op_text(op), '/') <= 1,
        op_text(op).len() <= 16,
{
    lemma_op_text_shape(op);
    lemma_occurrences_single(op_text(op), '/', op_separator(op));
}

/// The text of an operation is not a tag, a name and more, each followed
/// by a `/`: it holds one `/` at most.
proof fn lemma_two_separators(op: ShadowOperation, tag: Seq<char>, name: Seq<char>, rest: Seq<char>)
    ensures
        op_text(op) != tag.push('/') + (name.push('/') + rest),
{
    let x = tag.push('/') + (name.push('/') + rest);
    if op_text(op) == x {
        let a = tag.len() as int;
        let b = (tag.len() + 1 + name.len()) as int;
        assert(x[a] == '/');
        assert(x[b] == (name.push('/') + rest)[name.len() as int]);
        assert(x[b] == '/');
        lemma_op_text_separator(op, a);
        lemma_op_text_separator(op, b);
    }
}

/// What follows the thing name and its `/` in the topic of `t`.
pub open spec fn after_thing(t: ShadowTopicView, tag: Seq<char>) -> Seq<char> {
    "/shadow/"@.skip(1) + match t.shadow_name {
        None => op_text(t.op),
        Some(n) => tag.push('/') + (n.push('/') + op_text(t.op)),
    }
}

/// The topic of `t` is the prefix, the thing name, a `/`, and the rest.
pub proof fn lemma_topic_text_parts(t: ShadowTopicView, tag: Seq<char>)
    ensures
        topic_text_tagged(t, tag) == "$aws/things/"@ + (t.thing_name.push('/') + after_thing(
            t,
            tag,
        )),
{
    reveal_strlit("/shadow/");
    reveal_strlit("/");
    assert("/shadow/"@ =~= seq!['/'] + "/shadow/"@.skip(1));
    assert("/"@ =~= seq!['/']);
    assert(topic_text_tagged(t, tag) =~= "$aws/things/"@ + (t.thing_name.push('/') + after_thing(
        t,
        tag,
    )));
}

/// A topic is read in one way only: two readings of it are the same
/// reading, with the same tag where the shadow is a named one.
pub proof fn lemma_reading_unique(
    topic: Seq<char>,
    t1: ShadowTopicView,
    tag1: Seq<char>,
    t2: ShadowTopicView,
    tag2: Seq<char>,
)
    requires
        reads_as(topic, t1, tag1),
        reads_as(topic, t2, tag2),
    ensures
        t1 == t2,
        t1.shadow_name is Some ==> tag1 == tag2,
{
    let prefix = "$aws/things/"@;
    let bridge = "/shadow/"@.skip(1);
    lemma_topic_text_parts(t1, tag1);
    lemma_topic_text_parts(t2, tag2);
    lemma_name_has_no_separator(t1.thing_name, THING_NAME_LIMIT as int);
    lemma_name_has_no_separator(t2.thing_name, THING_NAME_LIMIT as int);
    let w1 = t1.thing_name.push('/') + after_thing(t1, tag1);
    let w2 = t2.thing_name.push('/') + after_thing(t2, tag2);
    assert(w1 =~= (prefix + w1).skip(prefix.len() as int));
    assert(w2 =~= (prefix + w2).skip(prefix.len() as int));
    lemma_split_unique(
        t1.thing_name,
        after_thing(t1, tag1),
        t2.thing_name,
        after_thing(t2, tag2),
        '/',
    );
    let x1 = match t1.shadow_name {
        None => op_text(t1.op),
        Some(n) => tag1.push('/') + (n.push('/') + op_text(t1.op)),
    };
    let x2 = match t2.shadow_name {
        None => op_text(t2.op),
        Some(n) => tag2.push('/') + (n.push('/') + op_text(t2.op)),
    };
    assert(x1 =~= (bridge + x1).skip(bridge.len() as int));
    assert(x2 =~= (bridge + x2).skip(bridge.len() as int));
    assert(x1 == x2);
    match (t1.shadow_name, t2.shadow_name) {
        (None, None) => {
            lemma_op_text_injective(t1.op, t2.op);
        },
        (Some(n1), Some(n2)) => {
            lemma_name_has_no_separator(n1, SHADOW_NAME_LIMIT as int);
            lemma_name_has_no_separator(n2, SHADOW_NAME_LIMIT as int);
            lemma_split_unique(
                tag1,
                n1.push('/') + op_text(t1.op),
                tag2,
                n2.push('/') + op_text(t2.op),
                '/',
            );
            lemma_split_unique(n1, op_text(t1.op), n2, op_text(t2.op), '/');
            lemma_op_text_injective(t1.op, t2.op);
        },
        (None, Some(n2)) => {
            lemma_two_separators(t1.op, tag2, n2, op_text(t2.op));
        },
        (Some(n1), None) => {
            lemma_two_separators(t2.op, tag1, n1, op_text(t1.op));
        },
    }
}

/// `classify` has one answer: what it reads a topic as is the only reading
/// that the topic has.
pub proof fn lemma_classifies_as_unique(topic: Seq<char>, t1: ShadowTopicView, t2: ShadowTopicView)
    requires
        classifies_as(topic, t1),
        classifies_as(topic, t2),
    ensures
        t1 == t2,
{
    let tag1 = choose|tag: Seq<char>| reads_as(topic, t1, tag);
    let tag2 = choose|tag: Seq<char>| reads_as(topic, t2, tag);
    lemma_reading_unique(topic, t1, tag1, t2, tag2);
}

/// Whatever the tag, the topic of a reading holds seven `/` at most.
pub proof fn lemma_reading_separators(t: ShadowTopicView, tag: Seq<char>)
    requires
        valid_names(t),
        !tag.contains('/'),
    ensures
        occurrences(topic_text_tagged(t, tag), '/') <= 7,
{
    reveal_strlit("$aws/things/");
    reveal_strlit("/shadow/");
    reveal_strlit("/");
    let prefix = "$aws/things/"@;
    let bridge = "/shadow/"@;
    let thing = t.thing_name;
    let op = op_text(t.op);
    lemma_name_is_plain(thing, THING_NAME_LIMIT as int);
    lemma_op_text_is_plain(t.op);
    lemma_occurrences_pair(prefix, '/', 4, 11);
    lemma_occurrences_pair(bridge, '/', 0, 7);
    lemma_occurrences_single(tag, '/', 0);
    lemma_occurrences_single("/"@, '/', 0);
    let a1 = prefix + thing;
    let a2 = a1 + bridge;
    lemma_occurrences_concat(prefix, thing, '/');
    lemma_occurrences_concat(a1, bridge, '/');
    match t.shadow_name {
        None => {
            lemma_occurrences_concat(a2, op, '/');
        },
        Some(n) => {
            lemma_name_is_plain(n, SHADOW_NAME_LIMIT as int);
            let a3 = a2 + tag;
            let a4 = a3 + "/"@;
            let a5 = a4 + n;
            let a6 = a5 + "/"@;
            lemma_occurrences_concat(a2, tag, '/');
            lemma_occurrences_concat(a3, "/"@, '/');
            lemma_occurrences_concat(a4, n, '/');
            lemma_occurrences_concat(a5, "/"@, '/');
            lemma_occurrences_concat(a6, op, '/');
        },
    }
}

/// `topic` announces the named shadow of `t`, if it has one, with the word
/// `name`.
pub open spec fn announces_name(topic: Seq<char>, t: ShadowTopicView) -> bool {
    t.shadow_name is Some ==> ("$aws/things/"@ + t.thing_name + "/shadow/name/"@).is_prefix_of(
        topic,
    )
}

/// The topic of a reading with valid names is read as that reading, and
/// announces its named shadow with the word `name`.
pub proof fn lemma_topic_text_reads_back(t: ShadowTopicView)
    requires
        valid_names(t),
    ensures
        reads_as(topic_text(t), t, "name"@),
        announces_name(topic_text(t), t),
        t.shadow_name is Some ==> starts_with_bridge(
            topic_text(t),
            t.thing_name,
            "/shadow/name/"@,
        ),
{
    reveal_strlit("name");
    reveal_strlit("/shadow/name/");
    reveal_strlit("/shadow/");
    reveal_strlit("/");
    assert(!"name"@.contains('/')) by {
        assert forall|k: int| 0 <= k < "name"@.len() implies "name"@[k] != '/' by {}
    }
    if t.shadow_name is Some {
        let n = t.shadow_name->Some_0;
        let head = "$aws/things/"@ + t.thing_name;
        assert(head + "/shadow/"@ + "name"@ + "/"@ =~= head + "/shadow/name/"@);
        assert(topic_text(t) =~= (head + "/shadow/name/"@) + (n + "/"@ + op_text(t.op)));
    }
}

/// The topic of a reading with valid names is written in ASCII and is no
/// longer than 232 characters, so `classify` reads it.
pub proof fn lemma_topic_text_bounds(t: ShadowTopicView)
    requires
        valid_names(t),
    ensures
        topic_text(t).len() <= 232,
        encode_utf8(topic_text(t)).len() == topic_text(t).len(),
        classifies_as(topic_text(t), t),
{
    reveal_strlit("$aws/things/");
    reveal_strlit("/shadow/");
    reveal_strlit("name");
    reveal_strlit("/");
    let prefix = "$aws/things/"@;
    let bridge = "/shadow/"@;
    let thing = t.thing_name;
    let op = op_text(t.op);
    lemma_name_is_plain(thing, THING_NAME_LIMIT as int);
    lemma_op_text_is_plain(t.op);
    assert(is_ascii_chars(prefix));
    assert(is_ascii_chars(bridge));
    assert(is_ascii_chars("name"@));
    assert(is_ascii_chars("/"@));
    let a1 = prefix + thing;
    let a2 = a1 + bridge;
    is_ascii_chars_concat(a1, prefix, thing);
    is_ascii_chars_concat(a2, a1, bridge);
    match t.shadow_name {
        None => {
            is_ascii_chars_concat(a2 + op, a2, op);
        },
        Some(n) => {
            lemma_name_is_plain(n, SHADOW_NAME_LIMIT as int);
            let a3 = a2 + "name"@;
            let a4 = a3 + "/"@;
            let a5 = a4 + n;
            let a6 = a5 + "/"@;
            is_ascii_chars_concat(a3, a2, "name"@);
            is_ascii_chars_concat(a4, a3, "/"@);
            is_ascii_chars_concat(a5, a4, n);
            is_ascii_chars_concat(a6, a5, "/"@);
            is_ascii_chars_concat(a6 + op, a6, op);
        },
    }
    is_ascii_chars_encode_utf8(topic_text(t));
    lemma_topic_text_reads_back(t);
}

/// Round trip: a topic that `classify` reads, that announces a named shadow
/// with the word `name`, and that is no longer than `TOPIC_CAPACITY`, is the
/// topic that `assemble` builds from the reading.
pub proof fn lemma_classify_then_assemble(topic: Seq<char>, t: ShadowTopicView)
    requires
        classifies_as(topic, t),
        announces_name(topic, t),
        topic.len() <= TOPIC_CAPACITY,
    ensures
        assemble_spec(t) == Ok::<Seq<char>, TopicError>(topic),
{
    let tag = choose|tag: Seq<char>| reads_as(topic, t, tag);
    if t.shadow_name is Some {
        reveal_strlit("/shadow/name/");
        reveal_strlit("/shadow/");
        reveal_strlit("name");
        reveal_strlit("/");
        let n = t.shadow_name->Some_0;
        let head = "$aws/things/"@ + t.thing_name;
        let expected = head + "/shadow/name/"@;
        let base: int = (head.len() + 8) as int;
        assert(topic == head + "/shadow/"@ + tag + "/"@ + n + "/"@ + op_text(t.op));
        assert forall|k: int| 0 <= k < 5 implies #[trigger] topic[base + k] == "name/"@[k] by {
            reveal_strlit("name/");
            assert(topic[base + k] == expected[base + k]);
        }
        reveal_strlit("name/");
        if tag.len() < 4 {
            assert(topic[base + tag.len()] == '/');
        } else if tag.len() > 4 {
            assert(topic[base + 4] == tag[4]);
            assert(tag.contains(tag[4]));
        } else {
            assert forall|k: int| 0 <= k < 4 implies tag[k] == "name"@[k] by {
                assert(topic[base + k] == tag[k]);
            }
            assert(tag =~= "name"@);
        }
    }
}

/// Round trip, the other way: what `assemble` builds, `classify` reads,
/// and reads as what it was built from and as nothing else.
pub proof fn lemma_assemble_then_classify(t: ShadowTopicView, read: ShadowTopicView)
    requires
        assemble_spec(t) is Ok,
    ensures
        classifies_as(assemble_spec(t)->Ok_0, t),
        classifies_as(assemble_spec(t)->Ok_0, read) ==> read == t,
{
    lemma_topic_text_bounds(t);
    if classifies_as(topic_text(t), read) {
        lemma_classifies_as_unique(topic_text(t), read, t);
    }
}

/// A topic that starts with the prefix, a valid thing name and a bridge is
/// the prefix, the name, a `/`, and the rest.
proof fn lemma_bridge_parts(topic: Seq<char>, thing: Seq<char>, bridge: Seq<char>)
    requires
        starts_with_bridge(topic, thing, bridge),
        bridge.len() > 0,
        bridge[0] == '/',
    ensures
        topic == "$aws/things/"@ + (thing.push('/') + (bridge.skip(1) + topic.skip(
            ("$aws/things/"@ + thing + bridge).len() as int,
        ))),
{
    let head = "$aws/things/"@ + thing + bridge;
    assert(topic =~= head + topic.skip(head.len() as int));
    assert(bridge =~= seq!['/'] + bridge.skip(1));
    assert(topic =~= "$aws/things/"@ + (thing.push('/') + (bridge.skip(1) + topic.skip(
        head.len() as int,
    ))));
}

/// A topic is of one kind only.
pub proof fn lemma_type_unique(topic: Seq<char>, k1: TopicType, k2: TopicType)
    requires
        has_type(topic, k1),
        has_type(topic, k2),
    ensures
        k1 == k2,
{
    reveal_strlit("/shadow/name/");
    reveal_strlit("/shadow/");
    reveal_strlit("/jobs/");
    reveal_strlit("/defender/metrics/");
    reveal_strlit("/tunnels/");
    let prefix = "$aws/things/"@;
    let th1 = choose|thing: Seq<char>| starts_with_bridge(topic, thing, bridge_text(k1));
    let th2 = choose|thing: Seq<char>| starts_with_bridge(topic, thing, bridge_text(k2));
    let b1 = bridge_text(k1);
    let b2 = bridge_text(k2);
    lemma_bridge_parts(topic, th1, b1);
    lemma_bridge_parts(topic, th2, b2);
    lemma_name_has_no_separator(th1, THING_NAME_LIMIT as int);
    lemma_name_has_no_separator(th2, THING_NAME_LIMIT as int);
    let r1 = b1.skip(1) + topic.skip((prefix + th1 + b1).len() as int);
    let r2 = b2.skip(1) + topic.skip((prefix + th2 + b2).len() as int);
    assert(th1.push('/') + r1 =~= (prefix + (th1.push('/') + r1)).skip(prefix.len() as int));
    assert(th2.push('/') + r2 =~= (prefix + (th2.push('/') + r2)).skip(prefix.len() as int));
    lemma_split_unique(th1, r1, th2, r2, '/');
    assert(r1[0] == b1[1]);
    assert(r2[0] == b2[1]);
    if k1 != k2 {
        if k1 == TopicType::Shadow {
            assert(starts_with_bridge(topic, th2, "/shadow/name/"@));
        } else if k2 == TopicType::Shadow {
            assert(starts_with_bridge(topic, th1, "/shadow/name/"@));
        }
    }
}

/// A topic of the kind `NamedShadow` that `classify` reads is read as a
/// named shadow, and is the topic of its reading: the word `name` stands
/// where the reading needs it.
pub proof fn lemma_named_reading(topic: Seq<char>, t: ShadowTopicView)
    requires
        has_type(topic, TopicType::NamedShadow),
        classifies_as(topic, t),
    ensures
        t.shadow_name is Some,
        topic == topic_text(t),
        announces_name(topic, t),
{
    reveal_strlit("/shadow/name/");
    reveal_strlit("/shadow/");
    reveal_strlit("name");
    let prefix = "$aws/things/"@;
    let named = "/shadow/name/"@;
    let tag = choose|tag: Seq<char>| reads_as(topic, t, tag);
    let thing = choose|thing: Seq<char>| starts_with_bridge(topic, thing, named);
    lemma_bridge_parts(topic, thing, named);
    lemma_topic_text_parts(t, tag);
    lemma_name_has_no_separator(thing, THING_NAME_LIMIT as int);
    lemma_name_has_no_separator(t.thing_name, THING_NAME_LIMIT as int);
    let suffix = topic.skip((prefix + thing + named).len() as int);
    let r1 = named.skip(1) + suffix;
    let r2 = after_thing(t, tag);
    assert(thing.push('/') + r1 =~= (prefix + (thing.push('/') + r1)).skip(prefix.len() as int));
    assert(t.thing_name.push('/') + r2 =~= (prefix + (t.thing_name.push('/') + r2)).skip(
        prefix.len() as int,
    ));
    lemma_split_unique(thing, r1, t.thing_name, r2, '/');
    let bridge = "/shadow/"@.skip(1);
    let word = "name"@;
    assert(named.skip(1) =~= bridge + word.push('/'));
    assert(r1 =~= bridge + (word.push('/') + suffix));
    match t.shadow_name {
        None => {
            lemma_op_text_shape(t.op);
            assert(r1[7] == 'n');
            assert(r2[7] == op_text(t.op)[0]);
        },
        Some(n) => {
            let x1 = word.push('/') + suffix;
            let x2 = tag.push('/') + (n.push('/') + op_text(t.op));
            assert(x1 =~= (bridge + x1).skip(bridge.len() as int));
            assert(x2 =~= (bridge + x2).skip(bridge.len() as int));
            assert(!word.contains('/')) by {
                assert forall|k: int| 0 <= k < word.len() implies word[k] != '/' by {}
            }
            lemma_split_unique(word, suffix, tag, n.push('/') + op_text(t.op), '/');
            assert((prefix + t.thing_name + named).is_prefix_of(topic));
        },
    }
}

} // verus!
