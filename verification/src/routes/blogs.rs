//! Blog posts.

use crate::ids::DocId;
use crate::text::text_view;
use crate::gate::AuthUser;
use crate::models::user::Role;
use vstd::string::StringExecFns;
use crate::text::{
    alphanumeric, is_alphanumeric, is_whitespace, lowercase_of, push_char, to_lowercase, whitespace,
};
use vstd::prelude::*;

verus! {

/// The body of a request that publishes a blog post.
#[derive(Debug, PartialEq, Eq)]
pub struct CreateBlogRequest {
    pub title: String,
    pub description: String,
    /// The text of the post, in Markdown.
    pub content: String,
    pub image_url: Option<String>,
    pub category: Option<String>,
}

/// A blog post as the store holds it.
#[derive(Debug, PartialEq, Eq)]
pub struct Blog {
    /// Absent until the store has assigned one.
    pub id: Option<DocId>,
    pub title: String,
    /// The name under which the post is addressed.
    pub slug: String,
    pub description: String,
    pub content: String,
    pub author_name: String,
    pub author_id: DocId,
    pub image_url: Option<String>,
    pub category: Option<String>,
    pub created_at: String,
    pub updated_at: String,
}

/// A character of a title as it enters the slug: letters, numbers and the
/// space stay, everything else becomes a space.
pub open spec fn slug_char(c: char) -> char {
    if alphanumeric(c) || c == ' ' {
        c
    } else {
        ' '
    }
}

/// A character of a title as the slug sees it: a character of a word, or
/// nothing where white space parts two words.
pub open spec fn slug_mark(c: char) -> Option<char> {
    if whitespace(slug_char(c)) {
        None
    } else {
        Some(slug_char(c))
    }
}

/// The words of a text joined by hyphens. The text is given character by
/// character, with nothing where white space stands; a word is a longest run
/// of characters.
pub open spec fn joined_words(marks: Seq<Option<char>>) -> Seq<char>
    decreases marks.len(),
{
    if marks.len() == 0 {
        Seq::empty()
    } else {
        let before = joined_words(marks.drop_last());
        match marks.last() {
            None => before,
            Some(c) => if marks.len() >= 2 && marks[marks.len() - 2] is Some {
                before.push(c)
            } else if before.len() == 0 {
                before.push(c)
            } else {
                before.push('-').push(c)
            },
        }
    }
}

/// Joins the words of a text by hyphens. White space at either end adds no
/// hyphen, and any run of white space between two words adds one.
pub fn join_words(marks: &Vec<Option<char>>) -> (r: String)
    ensures
        r@ == joined_words(marks@),
{
    let mut out = String::new();
    let mut in_word = false;
    let mut started = false;
    let mut i: usize = 0;
    assert(marks@.take(0) =~= Seq::empty());
    while i < marks.len()
        invariant
            i <= marks@.len(),
            out@ == joined_words(marks@.take(i as int)),
            in_word == (i > 0 && marks@[i - 1] is Some),
            started == (out@.len() > 0),
        decreases marks@.len() - i,
    {
        proof {
            assert(marks@.take(i + 1).drop_last() =~= marks@.take(i as int));
            assert(marks@.take(i + 1).last() == marks@[i as int]);
            if i >= 1 {
                assert(marks@.take(i + 1)[i - 1] == marks@[i - 1]);
            }
        }
        match marks[i] {
            None => {
                in_word = false;
            },
            Some(c) => {
                if !in_word && started {
                    push_char(&mut out, '-');
                }
                push_char(&mut out, c);
                in_word = true;
                started = true;
            },
        }
        i += 1;
    }
    assert(marks@.take(marks@.len() as int) =~= marks@);
    out
}

/// The slug of a title: the title in lower case, with everything but letters
/// and numbers taken for space, and the words joined by hyphens.
pub open spec fn slug_of(title: Seq<char>) -> Seq<char> {
    joined_words(lowercase_of(title).map_values(|c: char| slug_mark(c)))
}

/// Makes the slug of a title.
pub fn slugify(title: &str) -> (r: String)
    ensures
        r@ == slug_of(title@),
{
    let lower = to_lowercase(title);
    let mut marks: Vec<Option<char>> = Vec::new();
    for c in it: lower.as_str().chars()
        invariant
            it.seq() == lower@,
            marks@ =~= lower@.take(it.index() as int).map_values(|c: char| slug_mark(c)),
    {
        let kept = if is_alphanumeric(c) || c == ' ' {
            c
        } else {
            ' '
        };
        let ghost before = marks@;
        if is_whitespace(kept) {
            marks.push(None);
        } else {
            marks.push(Some(kept));
        }
        proof {
            let i = it.index() as int;
            assert(lower@.take(i + 1) =~= lower@.take(i).push(c));
            assert(marks@ =~= before.push(slug_mark(c)));
        }
    }
    assert(lower@.take(lower@.len() as int) =~= lower@);
    join_words(&marks)
}

/// The digit for a value below ten.
pub open spec fn decimal_digit(d: nat) -> char {
    ('0' as u8 + d as u8) as char
}

/// A number written in decimal digits.
pub open spec fn decimal_text(n: nat) -> Seq<char>
    decreases n,
{
    if n < 10 {
        seq![decimal_digit(n)]
    } else {
        decimal_text(n / 10).push(decimal_digit(n % 10))
    }
}

/// Writes a number in decimal digits.
pub fn decimal(n: u64) -> (r: String)
    ensures
        r@ == decimal_text(n as nat),
    decreases n,
{
    let digit = (('0' as u8) + (n % 10) as u8) as char;
    if n < 10 {
        let mut out = String::new();
        push_char(&mut out, digit);
        assert(out@ =~= seq![decimal_digit(n as nat)]);
        out
    } else {
        let mut out = decimal(n / 10);
        push_char(&mut out, digit);
        out
    }
}

/// A slug with a number behind it, to tell posts of one title apart.
pub open spec fn numbered(base: Seq<char>, counter: nat) -> Seq<char> {
    base + "-"@ + decimal_text(counter)
}

/// The slug to try when `base` and the numbers below `counter` are taken.
pub fn numbered_slug(base: &str, counter: u64) -> (r: String)
    ensures
        r@ == numbered(base@, counter as nat),
{
    let number = decimal(counter);
    String::from_str(base).concat("-").concat(number.as_str())
}

/// Whether a caller may delete a post: its author may, and so may every
/// administrator.
pub open spec fn may_delete(author: DocId, caller: Seq<char>, role: Role) -> bool {
    DocId::parsed(caller) == Some(author) || role == Role::Admin
}

/// Whether a caller may delete a post.
pub fn may_delete_blog(blog: &Blog, caller: &AuthUser) -> (r: bool)
    ensures
        r == may_delete(blog.author_id, caller.id@, caller.role),
{
    let is_author = match DocId::parse_str(caller.id.as_str()) {
        Some(id) => id == blog.author_id,
        None => false,
    };
    is_author || caller.role.is_admin()
}

/// Makes the post that a request to publish one describes, under a slug and
/// for an author.
pub fn new_blog(
    payload: CreateBlogRequest,
    slug: String,
    author_id: DocId,
    author_name: String,
    now: String,
) -> (r: Blog)
    ensures
        r.id is None,
        r.title@ == payload.title@,
        r.slug@ == slug@,
        r.description@ == payload.description@,
        r.content@ == payload.content@,
        r.author_name@ == author_name@,
        r.author_id == author_id,
        text_view(r.image_url) == text_view(payload.image_url),
        text_view(r.category) == text_view(payload.category),
        r.created_at@ == now@,
        r.updated_at@ == now@,
{
    Blog {
        id: None,
        title: payload.title,
        slug,
        description: payload.description,
        content: payload.content,
        author_name,
        author_id,
        image_url: payload.image_url,
        category: payload.category,
        created_at: now.clone(),
        updated_at: now,
    }
}

} // verus!
