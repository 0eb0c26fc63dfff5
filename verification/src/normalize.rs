use vstd::prelude::*;
use regex::Regex;
use crate::text::{
    chars_of, contains_token, extend_chars, extend_str, has_token, replace_token, replaced,
    string_of,
};
use crate::turn::{ContentPart, ContentPartView, ImageDetail, Turn, TurnView};

verus! {

/// A raw message as the platform delivered it.
#[derive(Debug, PartialEq, Eq)]
pub struct InputMessage {
    pub content: String,
    pub name: String,
    pub message_id: String,
    pub reply_msg: Option<String>,
    pub user_id: String,
    pub attached_files: Vec<String>,
}

impl Clone for InputMessage {
    fn clone(&self) -> (r: Self)
        ensures
            r.content@ == self.content@,
            r.name@ == self.name@,
            r.message_id@ == self.message_id@,
            r.reply_msg.deep_view() == self.reply_msg.deep_view(),
            r.user_id@ == self.user_id@,
            r.attached_files.deep_view() == self.attached_files.deep_view(),
    {
        let mut attached_files: Vec<String> = Vec::new();
        let mut i: usize = 0;
        while i < self.attached_files.len()
            invariant
                i <= self.attached_files.len(),
                attached_files.len() == i,
                forall|j: int| 0 <= j < i ==> attached_files@[j]@ == self.attached_files@[j]@,
            decreases self.attached_files.len() - i,
        {
            attached_files.push(self.attached_files[i].clone());
            i += 1;
        }
        assert(attached_files.deep_view() =~= self.attached_files.deep_view());
        InputMessage {
            content: self.content.clone(),
            name: self.name.clone(),
            message_id: self.message_id.clone(),
            reply_msg: match &self.reply_msg {
                Some(target) => Some(target.clone()),
                None => None,
            },
            user_id: self.user_id.clone(),
            attached_files,
        }
    }
}

/// Image policy: attach no images.
pub const DETAIL_NONE: u8 = 0;

/// Image policy: attach images tagged for a coarse look.
pub const DETAIL_LOW: u8 = 1;

/// Image policy: attach images tagged for a close look.
pub const DETAIL_HIGH: u8 = 255;

/// The pattern of a spoiler span: a pair of double bars and what stands
/// between them, line feeds included, as short as possible.
pub open spec fn spoiler_pattern() -> Seq<char> {
    r"(?s)(\|\|.*?\|\|)"@
}

/// What stands in for a spoiler span.
pub open spec fn spoiler_placeholder() -> Seq<char> {
    "||<spoiler_msg>||"@
}

/// The token by which an author asks for the closest look at the images.
pub open spec fn override_token() -> Seq<char> {
    "!hidetail"@
}

/// Whether the regex crate accepts `pattern` as a regular expression: whether
/// `Regex::new` returns `Ok` for it.
pub uninterp spec fn regex_compiles(pattern: Seq<char>) -> bool;

/// What `Regex::replace_all` returns for the expression compiled from
/// `pattern`, the haystack and the replacement.
pub uninterp spec fn regex_replace_all(
    pattern: Seq<char>,
    haystack: Seq<char>,
    replacement: Seq<char>,
) -> Seq<char>;

/// Compiles `pattern` with `regex::Regex::new` and applies
/// `Regex::replace_all` to `haystack`. Both depend on their arguments alone.
/// Nothing is claimed of the text beyond its name; `None` is returned exactly
/// when the pattern does not compile.
#[verifier::external_body]
fn replace_all(pattern: &str, haystack: &str, replacement: &str) -> (r: Option<String>)
    ensures
        r is Some <==> regex_compiles(pattern@),
        r matches Some(text) ==> text@ == regex_replace_all(pattern@, haystack@, replacement@),
{
    match Regex::new(pattern) {
        Ok(re) => Some(re.replace_all(haystack, replacement).into_owned()),
        Err(_) => None,
    }
}

/// `content` with every spoiler span replaced by the placeholder. Should the
/// spoiler pattern not compile, all of `content` is withheld.
pub open spec fn scrubbed(content: Seq<char>) -> Seq<char> {
    if regex_compiles(spoiler_pattern()) {
        regex_replace_all(spoiler_pattern(), content, spoiler_placeholder())
    } else {
        spoiler_placeholder()
    }
}

/// The image policy in force for a message whose scrubbed text is
/// `scrubbed_text`: the closest look where the text holds the override
/// token, else the policy given.
pub open spec fn detail_in_force(scrubbed_text: Seq<char>, policy: u8) -> u8 {
    if contains_token(scrubbed_text, override_token()) {
        DETAIL_HIGH
    } else {
        policy
    }
}

/// The text that is forwarded of a scrubbed text: all but the override
/// token.
pub open spec fn forwarded_body(scrubbed_text: Seq<char>) -> Seq<char> {
    replaced(scrubbed_text, override_token(), Seq::<char>::empty())
}

/// The image policy in force for a message with the text `content`.
pub open spec fn resolved_detail(content: Seq<char>, policy: u8) -> u8 {
    detail_in_force(scrubbed(content), policy)
}

/// The text that is forwarded of `content`: scrubbed, and without the
/// override token.
pub open spec fn normalized_body(content: Seq<char>) -> Seq<char> {
    forwarded_body(scrubbed(content))
}

/// The tag that an image policy puts on each image.
pub open spec fn detail_tag(detail: u8) -> ImageDetail {
    if detail == DETAIL_LOW {
        ImageDetail::Low
    } else if detail == DETAIL_HIGH {
        ImageDetail::High
    } else {
        ImageDetail::Unspecified
    }
}

/// The metadata envelope: message id, author's display name and reply
/// target (or `none`), then the body on a line of its own.
pub open spec fn envelope(
    message_id: Seq<char>,
    name: Seq<char>,
    reply_msg: Option<Seq<char>>,
    body: Seq<char>,
) -> Seq<char> {
    "[META]msg_id:"@ + message_id + ",user_name:"@ + name + ",replay_msg:"@ + (match reply_msg {
        Some(target) => target,
        None => "none"@,
    }) + ";\n"@ + body
}

/// One image part for each image, in order, under the policy `detail`; none
/// where the policy attaches no images.
pub open spec fn image_parts(images: Seq<Seq<char>>, detail: u8) -> Seq<ContentPartView> {
    if detail == DETAIL_NONE {
        Seq::<ContentPartView>::empty()
    } else {
        Seq::new(
            images.len(),
            |i: int| ContentPartView::Image { url: images[i], detail: detail_tag(detail) },
        )
    }
}

/// The canonical turn of a message whose scrubbed text is `scrubbed_text`:
/// attributed to the author's stable identifier, one text part holding the
/// envelope, then the image parts.
pub open spec fn turn_of_scrubbed(
    message: InputMessage,
    scrubbed_text: Seq<char>,
    policy: u8,
    images: Seq<Seq<char>>,
) -> TurnView {
    TurnView::User {
        name: Some(message.user_id@),
        content: seq![
            ContentPartView::Text(
                envelope(
                    message.message_id@,
                    message.name@,
                    message.reply_msg.deep_view(),
                    forwarded_body(scrubbed_text),
                ),
            ),
        ] + image_parts(images, detail_in_force(scrubbed_text, policy)),
    }
}

/// The canonical turn of a message.
pub open spec fn normalized_turn(message: InputMessage, policy: u8, images: Seq<Seq<char>>) -> TurnView {
    turn_of_scrubbed(message, scrubbed(message.content@), policy, images)
}

/// Replaces every spoiler span of `content` by the placeholder.
pub fn scrub_spoilers(content: &str) -> (r: String)
    ensures
        r@ == scrubbed(content@),
{
    match replace_all(r"(?s)(\|\|.*?\|\|)", content, "||<spoiler_msg>||") {
        Some(text) => text,
        None => "||<spoiler_msg>||".to_owned(),
    }
}

/// Whether images are to be resolved and attached, under `policy`, for a
/// message whose scrubbed text is `scrubbed_text`.
pub fn wants_images(scrubbed_text: &str, policy: u8) -> (r: bool)
    ensures
        r == (detail_in_force(scrubbed_text@, policy) != DETAIL_NONE),
{
    let body = chars_of(scrubbed_text);
    let token = chars_of("!hidetail");
    has_token(&body, &token) || policy != DETAIL_NONE
}

/// Whether the images of `message` are to be resolved and attached under
/// `policy`.
pub fn needs_images(message: &InputMessage, policy: u8) -> (r: bool)
    ensures
        r == (resolved_detail(message.content@, policy) != DETAIL_NONE),
{
    let scrubbed_text = scrub_spoilers(message.content.as_str());
    wants_images(scrubbed_text.as_str(), policy)
}

fn tag_of(detail: u8) -> (r: ImageDetail)
    ensures
        r == detail_tag(detail),
{
    if detail == DETAIL_LOW {
        ImageDetail::Low
    } else if detail == DETAIL_HIGH {
        ImageDetail::High
    } else {
        ImageDetail::Unspecified
    }
}

/// Turns a raw message into its canonical turn. The message's text is left
/// scrubbed and without the override token. `images` are the resolved
/// attachments; they are attached only where the policy in force asks for
/// images.
pub fn prepare_user_prompt(message: &mut InputMessage, viw_image_detail: u8, images: &Vec<String>) -> (r: Vec<Turn>)
    ensures
        final(message).content@ == normalized_body(old(message).content@),
        final(message).name == old(message).name,
        final(message).message_id == old(message).message_id,
        final(message).reply_msg == old(message).reply_msg,
        final(message).user_id == old(message).user_id,
        final(message).attached_files == old(message).attached_files,
        r.deep_view() == seq![normalized_turn(*old(message), viw_image_detail, images.deep_view())],
{
    let scrubbed_text = scrub_spoilers(message.content.as_str());
    prepare_scrubbed_prompt(message, scrubbed_text.as_str(), viw_image_detail, images)
}

/// Turns a raw message whose text was scrubbed to `scrubbed_text` into its
/// canonical turn. The message's text is replaced by the scrubbed text
/// without the override token.
pub fn prepare_scrubbed_prompt(
    message: &mut InputMessage,
    scrubbed_text: &str,
    viw_image_detail: u8,
    images: &Vec<String>,
) -> (r: Vec<Turn>)
    ensures
        final(message).content@ == forwarded_body(scrubbed_text@),
        final(message).name == old(message).name,
        final(message).message_id == old(message).message_id,
        final(message).reply_msg == old(message).reply_msg,
        final(message).user_id == old(message).user_id,
        final(message).attached_files == old(message).attached_files,
        r.deep_view() == seq![
            turn_of_scrubbed(*old(message), scrubbed_text@, viw_image_detail, images.deep_view()),
        ],
{
    let scrubbed_chars = chars_of(scrubbed_text);
    let token = chars_of("!hidetail");
    let nothing: Vec<char> = Vec::new();
    let detail: u8 = if has_token(&scrubbed_chars, &token) {
        DETAIL_HIGH
    } else {
        viw_image_detail
    };
    let body = replace_token(&scrubbed_chars, &token, &nothing);
    assert(nothing@ =~= Seq::<char>::empty());
    message.content = string_of(&body);

    let mut meta: Vec<char> = Vec::new();
    extend_str(&mut meta, "[META]msg_id:");
    extend_str(&mut meta, message.message_id.as_str());
    extend_str(&mut meta, ",user_name:");
    extend_str(&mut meta, message.name.as_str());
    extend_str(&mut meta, ",replay_msg:");
    match &message.reply_msg {
        Some(target) => extend_str(&mut meta, target.as_str()),
        None => extend_str(&mut meta, "none"),
    }
    extend_str(&mut meta, ";\n");
    extend_chars(&mut meta, &body);
    let ghost text = envelope(
        old(message).message_id@,
        old(message).name@,
        old(message).reply_msg.deep_view(),
        forwarded_body(scrubbed_text@),
    );
    assert(meta@ =~= text);

    let mut content: Vec<ContentPart> = Vec::new();
    content.push(ContentPart::Text(string_of(&meta)));
    if detail != DETAIL_NONE {
        let tag = tag_of(detail);
        let mut i: usize = 0;
        while i < images.len()
            invariant
                i <= images.len(),
                content.len() == i + 1,
                content@[0]@ == ContentPartView::Text(text),
                forall|j: int|
                    0 <= j < i ==> content@[j + 1]@ == (ContentPartView::Image {
                        url: images@[j]@,
                        detail: tag,
                    }),
            decreases images.len() - i,
        {
            content.push(ContentPart::Image { url: images[i].clone(), detail: tag });
            i += 1;
        }
    }
    let ghost parts = seq![ContentPartView::Text(text)] + image_parts(images.deep_view(), detail);
    assert(content.deep_view() =~= parts);
    let mut turns: Vec<Turn> = Vec::new();
    turns.push(Turn::User { name: Some(message.user_id.clone()), content });
    assert(turns.deep_view() =~= seq![
        turn_of_scrubbed(*old(message), scrubbed_text@, viw_image_detail, images.deep_view()),
    ]);
    turns
}

} // verus!
