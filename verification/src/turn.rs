use vstd::prelude::*;
use crate::text::same_text;

verus! {

/// How closely the engine is asked to look at an image.
#[derive(Clone, Copy, Debug, PartialEq, Eq, Structural)]
pub enum ImageDetail {
    Unspecified,
    Low,
    High,
}

impl ImageDetail {
    /// The tag that goes with an image, where the detail is specified.
    pub open spec fn tag_text(self) -> Option<Seq<char>> {
        match self {
            ImageDetail::Unspecified => None,
            ImageDetail::Low => Some("low"@),
            ImageDetail::High => Some("high"@),
        }
    }

    /// The tag that goes with an image, where the detail is specified.
    pub fn tag(&self) -> (r: Option<&'static str>)
        ensures
            match r {
                Some(text) => self.tag_text() == Some(text@),
                None => self.tag_text() is None,
            },
    {
        match self {
            ImageDetail::Unspecified => None,
            ImageDetail::Low => Some("low"),
            ImageDetail::High => Some("high"),
        }
    }

    /// The detail that a tag stands for; a tag that is neither `low` nor
    /// `high`, or a missing tag, leaves the detail unspecified.
    pub fn from_tag(tag: Option<&str>) -> (r: ImageDetail)
        ensures
            r == (match tag {
                Some(text) => if text@ == "low"@ {
                    ImageDetail::Low
                } else if text@ == "high"@ {
                    ImageDetail::High
                } else {
                    ImageDetail::Unspecified
                },
                None => ImageDetail::Unspecified,
            }),
    {
        match tag {
            Some(text) => {
                if same_text(text, "low") {
                    ImageDetail::Low
                } else if same_text(text, "high") {
                    ImageDetail::High
                } else {
                    ImageDetail::Unspecified
                }
            },
            None => ImageDetail::Unspecified,
        }
    }
}

/// One piece of a turn: text, or an image given by its address.
#[derive(Debug, PartialEq, Eq)]
pub enum ContentPart {
    Text(String),
    Image { url: String, detail: ImageDetail },
}

/// A content part as a mathematical value.
pub enum ContentPartView {
    Text(Seq<char>),
    Image { url: Seq<char>, detail: ImageDetail },
}

impl View for ContentPart {
    type V = ContentPartView;

    open spec fn view(&self) -> ContentPartView {
        match self {
            ContentPart::Text(text) => ContentPartView::Text(text@),
            ContentPart::Image { url, detail } => ContentPartView::Image {
                url: url@,
                detail: *detail,
            },
        }
    }
}

impl DeepView for ContentPart {
    type V = ContentPartView;

    open spec fn deep_view(&self) -> ContentPartView {
        self@
    }
}

impl Clone for ContentPart {
    fn clone(&self) -> (r: Self)
        ensures
            r@ == self@,
    {
        match self {
            ContentPart::Text(text) => ContentPart::Text(text.clone()),
            ContentPart::Image { url, detail } => ContentPart::Image {
                url: url.clone(),
                detail: *detail,
            },
        }
    }
}

/// A tool invocation that an assistant turn asks for.
#[derive(Debug, PartialEq, Eq)]
pub struct ToolRequest {
    pub id: String,
    pub name: String,
    pub arguments: String,
}

/// A tool request as a mathematical value.
pub struct ToolRequestView {
    pub id: Seq<char>,
    pub name: Seq<char>,
    pub arguments: Seq<char>,
}

impl View for ToolRequest {
    type V = ToolRequestView;

    open spec fn view(&self) -> ToolRequestView {
        ToolRequestView { id: self.id@, name: self.name@, arguments: self.arguments@ }
    }
}

impl DeepView for ToolRequest {
    type V = ToolRequestView;

    open spec fn deep_view(&self) -> ToolRequestView {
        self@
    }
}

impl Clone for ToolRequest {
    fn clone(&self) -> (r: Self)
        ensures
            r@ == self@,
    {
        ToolRequest {
            id: self.id.clone(),
            name: self.name.clone(),
            arguments: self.arguments.clone(),
        }
    }
}

/// One addressable unit of a conversation.
#[derive(Debug, PartialEq, Eq)]
pub enum Turn {
    /// What a participant wrote.
    User { name: Option<String>, content: Vec<ContentPart> },
    /// Operating instructions for the engine; lives only inside a session.
    Directive { name: Option<String>, content: Vec<ContentPart> },
    /// What the engine answered, with the tool invocations it asked for.
    Assistant { name: Option<String>, content: Vec<ContentPart>, tool_calls: Option<Vec<ToolRequest>> },
    /// What a tool returned for one invocation.
    ToolResult { tool_call_id: String, content: Vec<ContentPart> },
}

/// A turn as a mathematical value.
pub enum TurnView {
    User { name: Option<Seq<char>>, content: Seq<ContentPartView> },
    Directive { name: Option<Seq<char>>, content: Seq<ContentPartView> },
    Assistant {
        name: Option<Seq<char>>,
        content: Seq<ContentPartView>,
        tool_calls: Option<Seq<ToolRequestView>>,
    },
    ToolResult { tool_call_id: Seq<char>, content: Seq<ContentPartView> },
}

impl TurnView {
    /// The content parts, whatever the variant.
    pub open spec fn content(self) -> Seq<ContentPartView> {
        match self {
            TurnView::User { content, .. } => content,
            TurnView::Directive { content, .. } => content,
            TurnView::Assistant { content, .. } => content,
            TurnView::ToolResult { content, .. } => content,
        }
    }
}

/// No turn of `log` is a directive.
pub open spec fn no_directive(log: Seq<TurnView>) -> bool {
    forall|i: int| 0 <= i < log.len() ==> !(#[trigger] log[i] is Directive)
}

/// `log` without its directive turns, the other turns in their order.
pub open spec fn non_directive(log: Seq<TurnView>) -> Seq<TurnView>
    decreases log.len(),
{
    if log.len() == 0 {
        Seq::<TurnView>::empty()
    } else if log.last() is Directive {
        non_directive(log.drop_last())
    } else {
        non_directive(log.drop_last()).push(log.last())
    }
}

/// Taking the directive turns out leaves none, and changes nothing where
/// there was none.
pub proof fn lemma_non_directive(log: Seq<TurnView>)
    ensures
        no_directive(non_directive(log)),
        non_directive(log).len() <= log.len(),
        no_directive(log) ==> non_directive(log) == log,
    decreases log.len(),
{
    if log.len() > 0 {
        lemma_non_directive(log.drop_last());
        if no_directive(log) {
            assert forall|i: int| 0 <= i < log.drop_last().len() implies !(
            #[trigger] log.drop_last()[i] is Directive) by {
                assert(log.drop_last()[i] == log[i]);
            }
            assert(!(log[log.len() - 1] is Directive));
            assert(non_directive(log) =~= log);
        }
    } else {
        assert(non_directive(log) =~= log);
    }
}

impl View for Turn {
    type V = TurnView;

    open spec fn view(&self) -> TurnView {
        match self {
            Turn::User { name, content } => TurnView::User {
                name: name.deep_view(),
                content: content.deep_view(),
            },
            Turn::Directive { name, content } => TurnView::Directive {
                name: name.deep_view(),
                content: content.deep_view(),
            },
            Turn::Assistant { name, content, tool_calls } => TurnView::Assistant {
                name: name.deep_view(),
                content: content.deep_view(),
                tool_calls: tool_calls.deep_view(),
            },
            Turn::ToolResult { tool_call_id, content } => TurnView::ToolResult {
                tool_call_id: tool_call_id@,
                content: content.deep_view(),
            },
        }
    }
}

impl DeepView for Turn {
    type V = TurnView;

    open spec fn deep_view(&self) -> TurnView {
        self@
    }
}

/// A copy of an optional string.
pub fn copy_name(name: &Option<String>) -> (r: Option<String>)
    ensures
        r.deep_view() == name.deep_view(),
{
    match name {
        Some(text) => Some(text.clone()),
        None => None,
    }
}

/// A copy of a list of content parts.
pub fn copy_parts(parts: &Vec<ContentPart>) -> (r: Vec<ContentPart>)
    ensures
        r.deep_view() == parts.deep_view(),
{
    let mut out: Vec<ContentPart> = Vec::new();
    let mut i: usize = 0;
    while i < parts.len()
        invariant
            i <= parts.len(),
            out.len() == i,
            forall|j: int| 0 <= j < i ==> out@[j]@ == parts@[j]@,
        decreases parts.len() - i,
    {
        out.push(parts[i].clone());
        i += 1;
    }
    assert(out.deep_view() =~= parts.deep_view());
    out
}

/// A copy of a list of tool requests.
pub fn copy_requests(requests: &Vec<ToolRequest>) -> (r: Vec<ToolRequest>)
    ensures
        r.deep_view() == requests.deep_view(),
{
    let mut out: Vec<ToolRequest> = Vec::new();
    let mut i: usize = 0;
    while i < requests.len()
        invariant
            i <= requests.len(),
            out.len() == i,
            forall|j: int| 0 <= j < i ==> out@[j]@ == requests@[j]@,
        decreases requests.len() - i,
    {
        out.push(requests[i].clone());
        i += 1;
    }
    assert(out.deep_view() =~= requests.deep_view());
    out
}

impl Clone for Turn {
    fn clone(&self) -> (r: Self)
        ensures
            r@ == self@,
    {
        match self {
            Turn::User { name, content } => Turn::User {
                name: copy_name(name),
                content: copy_parts(content),
            },
            Turn::Directive { name, content } => Turn::Directive {
                name: copy_name(name),
                content: copy_parts(content),
            },
            Turn::Assistant { name, content, tool_calls } => Turn::Assistant {
                name: copy_name(name),
                content: copy_parts(content),
                tool_calls: match tool_calls {
                    Some(requests) => Some(copy_requests(requests)),
                    None => None,
                },
            },
            Turn::ToolResult { tool_call_id, content } => Turn::ToolResult {
                tool_call_id: tool_call_id.clone(),
                content: copy_parts(content),
            },
        }
    }
}

impl Turn {
    /// Whether this turn is a directive.
    pub fn is_directive(&self) -> (r: bool)
        ensures
            r == (self@ is Directive),
    {
        match self {
            Turn::Directive { .. } => true,
            _ => false,
        }
    }
}

/// Copies of the turns that are no directives, in order.
pub fn without_directives(turns: &Vec<Turn>) -> (r: Vec<Turn>)
    ensures
        r.deep_view() == non_directive(turns.deep_view()),
{
    let mut out: Vec<Turn> = Vec::new();
    let mut i: usize = 0;
    assert(out.deep_view() =~= non_directive(turns.deep_view().take(0)));
    while i < turns.len()
        invariant
            i <= turns.len(),
            out.deep_view() == non_directive(turns.deep_view().take(i as int)),
        decreases turns.len() - i,
    {
        proof {
            assert(turns.deep_view().take(i + 1).drop_last() =~= turns.deep_view().take(i as int));
        }
        let ghost before = out.deep_view();
        if !turns[i].is_directive() {
            out.push(turns[i].clone());
            assert(out.deep_view() =~= before.push(turns@[i as int]@));
        }
        i += 1;
    }
    assert(turns.deep_view().take(turns.len() as int) =~= turns.deep_view());
    out
}

} // verus!
