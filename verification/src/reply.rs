use vstd::prelude::*;
use crate::text::{
    chars_of, decimal, extend_chars, extend_decimal, extend_str, replace_token, replaced,
    string_of,
};

verus! {

/// How often `name` stands in `used`.
pub open spec fn occurrences(used: Seq<Seq<char>>, name: Seq<char>) -> nat
    decreases used.len(),
{
    if used.len() == 0 {
        0
    } else {
        occurrences(used.drop_last(), name) + if used.last() == name {
            1nat
        } else {
            0nat
        }
    }
}

/// The names of `used` without repetition, in the order of their first use.
pub open spec fn first_uses(used: Seq<Seq<char>>) -> Seq<Seq<char>>
    decreases used.len(),
{
    if used.len() == 0 {
        Seq::<Seq<char>>::empty()
    } else if used.drop_last().contains(used.last()) {
        first_uses(used.drop_last())
    } else {
        first_uses(used.drop_last()).push(used.last())
    }
}

/// How one tool is listed: its name, followed by the multiplication sign and
/// its count where it was used more than once.
pub open spec fn tool_entry(used: Seq<Seq<char>>, name: Seq<char>) -> Seq<char> {
    if occurrences(used, name) > 1 {
        name + "×"@ + decimal(occurrences(used, name))
    } else {
        name
    }
}

/// The entries of `names`, separated by a comma and a space.
pub open spec fn joined_entries(used: Seq<Seq<char>>, names: Seq<Seq<char>>) -> Seq<char>
    decreases names.len(),
{
    if names.len() == 0 {
        Seq::<char>::empty()
    } else if names.len() == 1 {
        tool_entry(used, names[0])
    } else {
        joined_entries(used, names.drop_last()) + ", "@ + tool_entry(used, names.last())
    }
}

/// The tool-usage trailer: nothing where no tool was used, else a line that
/// lists each tool once, in the order of first use.
pub open spec fn tool_trailer(used: Seq<Seq<char>>) -> Seq<char> {
    if used.len() == 0 {
        Seq::<char>::empty()
    } else {
        "\n-# tools: "@ + joined_entries(used, first_uses(used))
    }
}

/// The text that stands in for an answer the engine did not give.
pub open spec fn fallback_answer() -> Seq<char> {
    "Err: response is none from ai"@
}

/// The reply of a finished pass: the engine's answer (or the fallback) with
/// each written-out `\n` turned into a line break, then the line that names
/// the model, then the tool-usage trailer.
pub open spec fn reply_text(
    content: Option<Seq<char>>,
    model: Seq<char>,
    used: Seq<Seq<char>>,
) -> Seq<char> {
    replaced(
        match content {
            Some(answer) => answer,
            None => fallback_answer(),
        },
        "\\n"@,
        "\n"@,
    ) + "\n-# model: "@ + model + tool_trailer(used)
}

/// The reply of a failed pass.
pub open spec fn failure_text(diagnostic: Seq<char>) -> Seq<char> {
    "Err: failed reasoning - "@ + diagnostic
}

/// The names of the tools whose calls were surfaced during one session, one
/// entry for each call, in the order they were surfaced.
#[derive(Debug, PartialEq, Eq)]
pub struct ToolUsageRecord {
    names: Vec<String>,
}

impl View for ToolUsageRecord {
    type V = Seq<Seq<char>>;

    closed spec fn view(&self) -> Seq<Seq<char>> {
        self.names.deep_view()
    }
}

impl ToolUsageRecord {
    /// A record of no use.
    pub fn new() -> (r: ToolUsageRecord)
        ensures
            r@ == Seq::<Seq<char>>::empty(),
    {
        let r = ToolUsageRecord { names: Vec::new() };
        assert(r.names.deep_view() =~= Seq::<Seq<char>>::empty());
        r
    }

    /// Counts one more use of the tool `name`.
    pub fn record(&mut self, name: &str)
        ensures
            final(self)@ == old(self)@.push(name@),
    {
        self.names.push(name.to_owned());
        assert(self.names.deep_view() =~= old(self).names.deep_view().push(name@));
    }

    /// Counts one more use for each name of `names`, in order.
    pub fn record_all(&mut self, names: Vec<String>)
        ensures
            final(self)@ == old(self)@ + names.deep_view(),
    {
        let mut names = names;
        let ghost added = names.deep_view();
        self.names.append(&mut names);
        assert(self.names.deep_view() =~= old(self).names.deep_view() + added);
    }

    /// The number of uses recorded, all tools together.
    pub fn total(&self) -> (n: usize)
        ensures
            n == self@.len(),
    {
        self.names.len()
    }

    /// How often the tool `name` was used.
    pub fn count(&self, name: &str) -> (n: usize)
        ensures
            n == occurrences(self@, name@),
    {
        let key = name.to_owned();
        let mut n: usize = 0;
        let mut i: usize = 0;
        while i < self.names.len()
            invariant
                i <= self.names.len(),
                n <= i,
                key@ == name@,
                n == occurrences(self@.take(i as int), name@),
            decreases self.names.len() - i,
        {
            proof {
                assert(self@.take(i + 1).drop_last() =~= self@.take(i as int));
            }
            if self.names[i] == key {
                n += 1;
            }
            i += 1;
        }
        assert(self@.take(self@.len() as int) =~= self@);
        n
    }

    /// Whether the tool used at position `index` was used before.
    fn used_before(&self, index: usize) -> (r: bool)
        requires
            index < self@.len(),
        ensures
            r == self@.take(index as int).contains(self@[index as int]),
    {
        let mut j: usize = 0;
        while j < index
            invariant
                j <= index,
                index < self.names.len(),
                forall|k: int| 0 <= k < j ==> self@[k] != self@[index as int],
            decreases index - j,
        {
            if self.names[j] == self.names[index] {
                assert(self@.take(index as int)[j as int] == self@[index as int]);
                return true;
            }
            j += 1;
        }
        false
    }

    /// The tool-usage trailer of a reply.
    pub fn trailer(&self) -> (r: Vec<char>)
        ensures
            r@ == tool_trailer(self@),
    {
        let mut out: Vec<char> = Vec::new();
        if self.names.len() == 0 {
            return out;
        }
        let mut listed: Vec<char> = Vec::new();
        let mut entries: usize = 0;
        let mut i: usize = 0;
        while i < self.names.len()
            invariant
                i <= self.names.len(),
                entries == first_uses(self@.take(i as int)).len(),
                entries <= i,
                listed@ == joined_entries(self@, first_uses(self@.take(i as int))),
            decreases self.names.len() - i,
        {
            let ghost seen = first_uses(self@.take(i as int));
            proof {
                assert(self@.take(i + 1).drop_last() =~= self@.take(i as int));
            }
            if !self.used_before(i) {
                let ghost before = listed@;
                if entries > 0 {
                    extend_str(&mut listed, ", ");
                }
                extend_str(&mut listed, self.names[i].as_str());
                let uses = self.count(self.names[i].as_str());
                if uses > 1 {
                    extend_str(&mut listed, "×");
                    extend_decimal(&mut listed, uses as u64);
                }
                entries += 1;
                proof {
                    let now = seen.push(self@[i as int]);
                    assert(now.drop_last() =~= seen);
                    assert(listed@ =~= joined_entries(self@, now));
                }
            }
            i += 1;
        }
        assert(self@.take(self@.len() as int) =~= self@);
        extend_str(&mut out, "\n-# tools: ");
        extend_chars(&mut out, &listed);
        out
    }
}

/// The count that the trailer shows for a tool is the number of its uses:
/// the usage record is a multiset of names, and a name is counted as often
/// as it was recorded.
pub proof fn lemma_occurrences_count(used: Seq<Seq<char>>, name: Seq<char>)
    ensures
        occurrences(used, name) == used.to_multiset().count(name),
        occurrences(used, name) <= used.len(),
        used.contains(name) <==> occurrences(used, name) > 0,
    decreases used.len(),
{
    broadcast use vstd::seq_lib::group_to_multiset_ensures;

    if used.len() == 0 {
        assert(used =~= Seq::<Seq<char>>::empty());
    } else {
        lemma_occurrences_count(used.drop_last(), name);
        assert(used =~= used.drop_last().push(used.last()));
        assert(used.to_multiset() =~= used.drop_last().to_multiset().insert(used.last()));
    }
}

/// The trailer lists each tool that was used, once: the list of first uses
/// holds the names of the record and no name twice.
pub proof fn lemma_first_uses(used: Seq<Seq<char>>, name: Seq<char>)
    ensures
        first_uses(used).contains(name) <==> used.contains(name),
        first_uses(used).no_duplicates(),
        first_uses(used).len() <= used.len(),
    decreases used.len(),
{
    if used.len() > 0 {
        let before = used.drop_last();
        let last = used.last();
        lemma_first_uses(before, name);
        lemma_first_uses(before, last);
        assert(used =~= before.push(last));
        if used.contains(name) {
            let i = choose|i: int| 0 <= i < used.len() && used[i] == name;
            if i < before.len() {
                assert(before[i] == name);
            }
        }
        if before.contains(name) {
            let i = choose|i: int| 0 <= i < before.len() && before[i] == name;
            assert(used[i] == name);
        }
        if !before.contains(last) {
            let listed = first_uses(before);
            assert(first_uses(used) == listed.push(last));
            assert(listed.push(last)[listed.len() as int] == last);
            if listed.contains(name) {
                let i = choose|i: int| 0 <= i < listed.len() && listed[i] == name;
                assert(listed.push(last)[i] == name);
            }
            if listed.push(last).contains(name) && name != last {
                let i = choose|i: int| 0 <= i < listed.push(last).len() && listed.push(last)[i] == name;
                assert(listed[i] == name);
            }
        }
    }
}

/// Tools are listed in the order of their first use: what is listed for the
/// first `k` uses stays at the head of the list, whatever is used later.
pub proof fn lemma_first_uses_grow(used: Seq<Seq<char>>, k: int)
    requires
        0 <= k <= used.len(),
    ensures
        first_uses(used.take(k)).len() <= first_uses(used).len(),
        first_uses(used.take(k)) == first_uses(used).take(first_uses(used.take(k)).len() as int),
    decreases used.len(),
{
    if k == used.len() {
        assert(used.take(k) =~= used);
        assert(first_uses(used).take(first_uses(used).len() as int) =~= first_uses(used));
    } else {
        assert(used.drop_last().take(k) =~= used.take(k));
        lemma_first_uses_grow(used.drop_last(), k);
        let shorter = first_uses(used.drop_last());
        let head = first_uses(used.take(k));
        assert(first_uses(used).take(head.len() as int) =~= shorter.take(head.len() as int));
    }
}

/// A tool used once is listed by its name alone; a tool used more often is
/// listed with the multiplication sign and its count.
pub proof fn lemma_tool_entry(used: Seq<Seq<char>>, name: Seq<char>)
    ensures
        occurrences(used, name) <= 1 ==> tool_entry(used, name) == name,
        occurrences(used, name) > 1 ==> tool_entry(used, name) == name + "×"@ + decimal(
            occurrences(used, name),
        ),
{
}

/// Composes the reply of a finished pass from the engine's answer, the
/// model's name and the tools used.
pub fn compose_reply(content: Option<&str>, model: &str, used: &ToolUsageRecord) -> (r: String)
    ensures
        r@ == reply_text(
            match content {
                Some(answer) => Some(answer@),
                None => None,
            },
            model@,
            used@,
        ),
{
    let answer = match content {
        Some(answer) => chars_of(answer),
        None => chars_of("Err: response is none from ai"),
    };
    let written = chars_of("\\n");
    let line_break = chars_of("\n");
    let mut out = replace_token(&answer, &written, &line_break);
    extend_str(&mut out, "\n-# model: ");
    extend_str(&mut out, model);
    let trailer = used.trailer();
    extend_chars(&mut out, &trailer);
    string_of(&out)
}

/// Composes the reply of a failed pass from the engine's diagnostic.
pub fn compose_failure(diagnostic: &str) -> (r: String)
    ensures
        r@ == failure_text(diagnostic@),
{
    let mut out: Vec<char> = Vec::new();
    extend_str(&mut out, "Err: failed reasoning - ");
    extend_str(&mut out, diagnostic);
    string_of(&out)
}

} // verus!
