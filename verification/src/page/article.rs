//! The page of one article with its comments: its state, and how each
//! message changes it and what it asks to be done.

use vstd::prelude::*;
use std::collections::VecDeque;
use crate::article::{Article, Comment, CommentId};
use crate::author::Author;
use crate::global_msg::GMsg;
use crate::page::status::Status;
use crate::route::Route;
use crate::session::Session;
use crate::slug::Slug;
use crate::text::{copy_strings, decimal, decimal_string};
use crate::username::Username;

verus! {

/// The text of the comment being written: still edited, or being sent.
pub enum CommentText {
    Editing(String),
    Sending(String),
}

impl Default for CommentText {
    /// An empty text being edited.
    fn default() -> (r: Self)
        ensures
            r matches CommentText::Editing(t) && t@.len() == 0,
    {
        CommentText::Editing(String::new())
    }
}

/// The state of the article page.
pub struct Model {
    pub session: Session,
    pub errors: Vec<String>,
    pub comments: Status<(CommentText, VecDeque<Comment>)>,
    pub article: Status<Article>,
}

/// What the page asks to be done after a message.
pub enum Command {
    /// Tell the page when loading takes long.
    NotifyOnSlowLoad,
    LoadArticle(Slug),
    LoadComments(Slug),
    DeleteArticle(Slug),
    DeleteComment(Slug, CommentId),
    Favorite(Slug),
    Unfavorite(Slug),
    Follow(Username),
    Unfollow(Username),
    CreateComment(Slug, String),
    GoTo(Route),
    LogErrors(Vec<String>),
    LogError(String),
}

/// The commands of a step, and whether the page need not be drawn again.
pub struct Effects {
    pub commands: Vec<Command>,
    pub skip: bool,
}

/// A message to the article page.
pub enum Msg {
    DeleteArticleClicked(Slug),
    DeleteCommentClicked(Slug, CommentId),
    DismissErrorsClicked,
    FavoriteClicked(Slug),
    UnfavoriteClicked(Slug),
    FollowClicked(Author),
    UnfollowClicked(Author),
    PostCommentClicked(Slug),
    CommentTextEntered(String),
    LoadArticleCompleted(Result<Article, Vec<String>>),
    LoadCommentsCompleted(Result<VecDeque<Comment>, Vec<String>>),
    DeleteArticleCompleted(Result<(), Vec<String>>),
    DeleteCommentCompleted(Result<CommentId, Vec<String>>),
    FavoriteChangeCompleted(Result<Article, Vec<String>>),
    FollowChangeCompleted(Result<Author, Vec<String>>),
    PostCommentCompleted(Result<Comment, Vec<String>>),
    SlowLoadThresholdPassed,
    Unreachable,
}

/// The comments that remain when those with the identifier `id` are taken
/// out, in order.
pub open spec fn without_comment(comments: Seq<Comment>, id: Seq<char>) -> Seq<Comment> {
    comments.filter(other_than(id))
}

/// Whether a comment carries an identifier other than `id`.
pub open spec fn other_than(id: Seq<char>) -> spec_fn(Comment) -> bool {
    |c: Comment| c.id@ != id
}

/// A comment is left after a deletion exactly when it was there before and
/// its identifier differs from the deleted one; none that is left carries
/// the deleted identifier, and none is added.
pub proof fn lemma_without_comment_keeps(comments: Seq<Comment>, id: Seq<char>)
    ensures
        forall|c: Comment|
            #[trigger] without_comment(comments, id).contains(c) <==> (comments.contains(c) && c.id@
                != id),
        forall|i: int|
            0 <= i < without_comment(comments, id).len() ==> (#[trigger] without_comment(
                comments,
                id,
            )[i]).id@ != id,
        without_comment(comments, id).len() <= comments.len(),
{
    let pred = other_than(id);
    let r = without_comment(comments, id);
    comments.lemma_filter_len(pred);
    assert forall|c: Comment| #[trigger] r.contains(c) implies comments.contains(c) && c.id@
        != id by {
        comments.lemma_filter_contains_rev(pred, c);
        let j = choose|j: int| 0 <= j < r.len() && r[j] == c;
        comments.lemma_filter_pred(pred, j);
    }
    assert forall|c: Comment| comments.contains(c) && c.id@ != id implies #[trigger] r.contains(
        c,
    ) by {
        let j = choose|j: int| 0 <= j < comments.len() && comments[j] == c;
        comments.lemma_filter_contains(pred, j);
    }
    assert forall|i: int| 0 <= i < r.len() implies (#[trigger] r[i]).id@ != id by {
        comments.lemma_filter_pred(pred, i);
    }
}

/// Deleting from two runs of comments, one after the other, is deleting
/// from each: the order of the comments that are left is kept.
pub proof fn lemma_without_comment_concat(a: Seq<Comment>, b: Seq<Comment>, id: Seq<char>)
    ensures
        without_comment(a + b, id) == without_comment(a, id) + without_comment(b, id),
{
    let pred = other_than(id);
    Seq::filter_distributes_over_add(a, b, pred);
}

/// A single comment is taken out exactly when it carries the deleted
/// identifier.
pub proof fn lemma_without_comment_single(c: Comment, id: Seq<char>)
    ensures
        c.id@ != id ==> without_comment(seq![c], id) == seq![c],
        c.id@ == id ==> without_comment(seq![c], id) == Seq::<Comment>::empty(),
{
    let pred = other_than(id);
    let s = seq![c];
    reveal_with_fuel(Seq::<_>::filter, 2);
    assert(s.drop_last() =~= Seq::<Comment>::empty());
    assert(s.last() == c);
    if c.id@ != id {
        assert(s.filter(pred) =~= seq![c]);
    } else {
        assert(s.filter(pred) =~= Seq::<Comment>::empty());
    }
}

/// The message logged when a comment is posted outside editing.
pub open spec fn not_editing_post_text() -> Seq<char> {
    "Comment can be created only in Editing mode!"@
}

/// The message logged when the comment's text changes outside editing.
pub open spec fn not_editing_text_text() -> Seq<char> {
    "Comment text can be changed only in Editing mode!"@
}

/// The message logged for a message that cannot happen.
pub open spec fn unreachable_text() -> Seq<char> {
    "Unreachable!"@
}

/// The favorite button of an article: whether the article is a favorite
/// (then the button is filled and its click asks to unfavorite), the
/// article's slug, and the label with the number of favorites.
pub struct FavoriteButton {
    pub favorited: bool,
    pub slug: Slug,
    pub label: String,
}

/// A button next to an article.
pub enum ArticleButton {
    Edit(Slug),
    Delete(Slug),
    Follow(Author),
    Unfollow(Author),
    Favorite(FavoriteButton),
}

/// The label of the favorite button: ` Favorite Article (<count>)`.
pub open spec fn favorite_label(count: nat) -> Seq<char> {
    " Favorite Article ("@ + decimal(count) + ")"@
}

/// Whether a button is the article's favorite button.
pub open spec fn is_favorite_button(b: ArticleButton, article: Article) -> bool {
    b matches ArticleButton::Favorite(f) && f.favorited == article.favorited && f.slug
        == article.slug && f.label@ == favorite_label(article.favorites_count as nat)
}

/// The favorite button of an article.
pub fn favorite_button(article: &Article) -> (r: FavoriteButton)
    ensures
        r.favorited == article.favorited,
        r.slug == article.slug,
        r.label@ == favorite_label(article.favorites_count as nat),
{
    let mut label = String::from_str(" Favorite Article (");
    let count = decimal_string(article.favorites_count);
    label.append(count.as_str());
    label.append(")");
    FavoriteButton { favorited: article.favorited, slug: article.slug.clone(), label }
}

/// Whether the viewer may delete a comment: only their own.
pub fn can_delete_comment(comment: &Comment) -> (r: bool)
    ensures
        r == comment.author is IsViewer,
{
    match comment.author {
        Author::IsViewer(..) => true,
        _ => false,
    }
}

/// What stands where comments are written: a prompt to sign in for a
/// guest, else the text being written and whether posting is disabled,
/// as it is while the text is being sent.
pub enum CommentForm {
    SignInPrompt,
    Form(String, bool),
}

/// Effects of one command that need not redraw the page.
fn skip_with(c: Command) -> (e: Effects)
    ensures
        e.commands@ == seq![c],
        e.skip,
{
    let mut commands: Vec<Command> = Vec::new();
    commands.push(c);
    Effects { commands, skip: true }
}

/// Effects of one command.
fn just(c: Command) -> (e: Effects)
    ensures
        e.commands@ == seq![c],
        !e.skip,
{
    let mut commands: Vec<Command> = Vec::new();
    commands.push(c);
    Effects { commands, skip: false }
}

/// No effects.
fn nothing() -> (e: Effects)
    ensures
        e.commands@.len() == 0,
        !e.skip,
{
    Effects { commands: Vec::new(), skip: false }
}

/// Whether the commands are a single log of `text`.
pub open spec fn logs_error(commands: Seq<Command>, text: Seq<char>) -> bool {
    commands.len() == 1 && (commands[0] matches Command::LogError(m) && m@ == text)
}

/// Whether the commands are a single log of the errors `errors`.
pub open spec fn logs_errors(commands: Seq<Command>, errors: Seq<String>) -> bool {
    commands.len() == 1 && (commands[0] matches Command::LogErrors(es) && es@ == errors)
}

fn log_error(text: &str) -> (e: Effects)
    ensures
        logs_error(e.commands@, text@),
        !e.skip,
{
    just(Command::LogError(String::from_str(text)))
}

/// The comments without those with the identifier `id`, in order.
fn remove_comment(comments: VecDeque<Comment>, id: &CommentId) -> (r: VecDeque<Comment>)
    ensures
        r@ == without_comment(comments@, id@),
        forall|c: Comment| #[trigger] r@.contains(c) <==> (comments@.contains(c) && c.id@ != id@),
        r@.len() <= comments@.len(),
{
    let mut r: VecDeque<Comment> = VecDeque::new();
    let mut rest = comments;
    let ghost all = rest@;
    while rest.len() > 0
        invariant
            all.len() >= rest@.len(),
            rest@ == all.subrange(all.len() - rest@.len(), all.len() as int),
            r@ == without_comment(all.take(all.len() - rest@.len()), id@),
        decreases rest@.len(),
    {
        let ghost k = all.len() - rest@.len();
        let c = rest.pop_front().unwrap();
        proof {
            assert(c == all[k]);
            assert(all.take(k + 1).drop_last() =~= all.take(k));
            assert(all.take(k + 1).last() == c);
            reveal_with_fuel(Seq::<_>::filter, 1);
        }
        if !c.id.same_as(id) {
            r.push_back(c);
        }
    }
    assert(all.take(all.len() as int) =~= all);
    proof {
        lemma_without_comment_keeps(all, id@);
    }
    r
}

/// The page for an article that is being loaded, and the loads it asks for.
pub fn init(session: Session, slug: &Slug) -> (r: (Model, Vec<Command>))
    ensures
        r.0.session == session,
        r.0.errors@.len() == 0,
        r.0.comments is Loading,
        r.0.article is Loading,
        r.1@ == seq![Command::NotifyOnSlowLoad, Command::LoadArticle(*slug), Command::LoadComments(*slug)],
{
    let mut commands: Vec<Command> = Vec::new();
    commands.push(Command::NotifyOnSlowLoad);
    commands.push(Command::LoadArticle(slug.clone()));
    commands.push(Command::LoadComments(slug.clone()));
    (Model { session, errors: Vec::new(), comments: Status::Loading, article: Status::Loading }, commands)
}

impl Model {
    /// The session that the page hands on when it is left.
    pub fn into_session(self) -> (r: Session)
        ensures
            r == self.session,
    {
        self.session
    }

    /// The session of the page.
    pub fn session(&self) -> (r: &Session)
        ensures
            *r == self.session,
    {
        &self.session
    }

    /// A message to all pages: a new session is kept and the page goes home.
    pub fn sink(&mut self, g_msg: GMsg) -> (r: Vec<Command>)
        ensures
            match g_msg {
                GMsg::SessionChanged(session) => {
                    &&& final(self).session == session
                    &&& final(self).errors == old(self).errors
                    &&& final(self).comments == old(self).comments
                    &&& final(self).article == old(self).article
                    &&& r@ == seq![Command::GoTo(Route::Home)]
                },
                _ => *final(self) == *old(self) && r@.len() == 0,
            },
    {
        match g_msg {
            GMsg::SessionChanged(session) => {
                self.session = session;
                let mut r: Vec<Command> = Vec::new();
                r.push(Command::GoTo(Route::Home));
                r
            },
            _ => Vec::new(),
        }
    }
    /// The title of the page: the article's title once it is loaded, else
    /// `Article`.
    pub fn title_prefix(&self) -> (r: String)
        ensures
            r@ == match self.article {
                Status::Loaded(a) => a.title@,
                _ => "Article"@,
            },
    {
        match &self.article {
            Status::Loaded(a) => a.title.clone(),
            _ => String::from_str("Article"),
        }
    }

    /// The buttons next to an article: none for a guest; editing and
    /// deleting for the viewer's own article; else following or unfollowing
    /// the author, and the favorite button.
    pub fn buttons(&self, article: &Article) -> (r: Vec<ArticleButton>)
        ensures
            self.session.spec_viewer() is None ==> r@.len() == 0,
            self.session.spec_viewer() is Some ==> match article.author {
                Author::IsViewer(..) => r@ == seq![
                    ArticleButton::Edit(article.slug),
                    ArticleButton::Delete(article.slug),
                ],
                Author::Following(_) => {
                    &&& r@.len() == 2
                    &&& r@[0] == ArticleButton::Unfollow(article.author)
                    &&& is_favorite_button(r@[1], *article)
                },
                Author::NotFollowing(_) => {
                    &&& r@.len() == 2
                    &&& r@[0] == ArticleButton::Follow(article.author)
                    &&& is_favorite_button(r@[1], *article)
                },
            },
    {
        let mut r: Vec<ArticleButton> = Vec::new();
        match self.session.viewer() {
            None => {},
            Some(_) => match &article.author {
                Author::IsViewer(..) => {
                    r.push(ArticleButton::Edit(article.slug.clone()));
                    r.push(ArticleButton::Delete(article.slug.clone()));
                },
                Author::Following(_) => {
                    r.push(ArticleButton::Unfollow(article.author.clone()));
                    r.push(ArticleButton::Favorite(favorite_button(article)));
                },
                Author::NotFollowing(_) => {
                    r.push(ArticleButton::Follow(article.author.clone()));
                    r.push(ArticleButton::Favorite(favorite_button(article)));
                },
            },
        }
        r
    }

    /// What stands where comments are written.
    pub fn comment_form(&self, comment_text: &CommentText) -> (r: CommentForm)
        ensures
            self.session.spec_viewer() is None ==> r is SignInPrompt,
            self.session.spec_viewer() is Some ==> match *comment_text {
                CommentText::Editing(t) => (r matches CommentForm::Form(text, disabled) && text
                    == t && !disabled),
                CommentText::Sending(t) => (r matches CommentForm::Form(text, disabled) && text
                    == t && disabled),
            },
    {
        match self.session.viewer() {
            None => CommentForm::SignInPrompt,
            Some(_) => match comment_text {
                CommentText::Editing(t) => CommentForm::Form(t.clone(), false),
                CommentText::Sending(t) => CommentForm::Form(t.clone(), true),
            },
        }
    }

    /// Handles a message: changes the state as the message says and returns
    /// what is to be done.
    #[verifier::rlimit(50)]
    pub fn update(&mut self, msg: Msg) -> (e: Effects)
        ensures
            final(self).session == old(self).session,
            match msg {
                Msg::DeleteArticleClicked(slug) => {
                    &&& *final(self) == *old(self)
                    &&& e.commands@ == seq![Command::DeleteArticle(slug)]
                    &&& e.skip
                },
                Msg::DeleteCommentClicked(slug, id) => {
                    &&& *final(self) == *old(self)
                    &&& e.commands@ == seq![Command::DeleteComment(slug, id)]
                    &&& e.skip
                },
                Msg::DismissErrorsClicked => {
                    &&& final(self).errors@.len() == 0
                    &&& final(self).comments == old(self).comments
                    &&& final(self).article == old(self).article
                    &&& e.commands@.len() == 0
                    &&& !e.skip
                },
                Msg::FavoriteClicked(slug) => {
                    &&& *final(self) == *old(self)
                    &&& e.commands@ == seq![Command::Unfavorite(slug)]
                    &&& e.skip
                },
                Msg::UnfavoriteClicked(slug) => {
                    &&& *final(self) == *old(self)
                    &&& e.commands@ == seq![Command::Favorite(slug)]
                    &&& e.skip
                },
                Msg::FollowClicked(author) => {
                    &&& *final(self) == *old(self)
                    &&& e.commands@ == seq![Command::Follow(author.spec_username())]
                    &&& e.skip
                },
                Msg::UnfollowClicked(author) => {
                    &&& *final(self) == *old(self)
                    &&& e.commands@ == seq![Command::Unfollow(author.spec_username())]
                    &&& e.skip
                },
                Msg::PostCommentClicked(slug) => match old(self).comments {
                    Status::Loaded((CommentText::Editing(text), comments)) => if text@.len() == 0 {
                        &&& *final(self) == *old(self)
                        &&& e.commands@.len() == 0
                        &&& e.skip
                    } else {
                        &&& final(self).comments == Status::Loaded(
                            (CommentText::Sending(text), comments),
                        )
                        &&& final(self).errors == old(self).errors
                        &&& final(self).article == old(self).article
                        &&& e.commands@ == seq![Command::CreateComment(slug, text)]
                        &&& !e.skip
                    },
                    _ => {
                        &&& *final(self) == *old(self)
                        &&& logs_error(e.commands@, not_editing_post_text())
                        &&& !e.skip
                    },
                },
                Msg::CommentTextEntered(new_text) => match old(self).comments {
                    Status::Loaded((CommentText::Editing(_), comments)) => {
                        &&& final(self).comments == Status::Loaded(
                            (CommentText::Editing(new_text), comments),
                        )
                        &&& final(self).errors == old(self).errors
                        &&& final(self).article == old(self).article
                        &&& e.commands@.len() == 0
                        &&& !e.skip
                    },
                    _ => {
                        &&& *final(self) == *old(self)
                        &&& logs_error(e.commands@, not_editing_text_text())
                        &&& !e.skip
                    },
                },
                Msg::LoadArticleCompleted(Ok(article)) => {
                    &&& final(self).article == Status::Loaded(article)
                    &&& final(self).errors == old(self).errors
                    &&& final(self).comments == old(self).comments
                    &&& e.commands@.len() == 0
                    &&& !e.skip
                },
                Msg::LoadArticleCompleted(Err(errors)) => {
                    &&& final(self).article is Failed
                    &&& final(self).errors == old(self).errors
                    &&& final(self).comments == old(self).comments
                    &&& logs_errors(e.commands@, errors@)
                    &&& !e.skip
                },
                Msg::LoadCommentsCompleted(Ok(comments)) => {
                    &&& (final(self).comments matches Status::Loaded((CommentText::Editing(t), cs))
                        && t@.len() == 0 && cs == comments)
                    &&& final(self).errors == old(self).errors
                    &&& final(self).article == old(self).article
                    &&& e.commands@.len() == 0
                    &&& !e.skip
                },
                Msg::LoadCommentsCompleted(Err(errors)) => {
                    &&& final(self).comments is Failed
                    &&& final(self).errors == old(self).errors
                    &&& final(self).article == old(self).article
                    &&& logs_errors(e.commands@, errors@)
                    &&& !e.skip
                },
                Msg::DeleteArticleCompleted(Ok(())) => {
                    &&& *final(self) == *old(self)
                    &&& e.commands@ == seq![Command::GoTo(Route::Home)]
                    &&& !e.skip
                },
                Msg::DeleteCommentCompleted(Ok(id)) => {
                    &&& match old(self).comments {
                        Status::Loaded((text, comments)) => (final(self).comments matches Status::Loaded(
                            (t, cs),
                        ) && t == text && cs@ == without_comment(comments@, id@)),
                        _ => final(self).comments == old(self).comments,
                    }
                    &&& final(self).errors == old(self).errors
                    &&& final(self).article == old(self).article
                    &&& e.commands@.len() == 0
                    &&& !e.skip
                },
                Msg::FavoriteChangeCompleted(Ok(article)) => {
                    &&& final(self).article == Status::Loaded(article)
                    &&& final(self).errors == old(self).errors
                    &&& final(self).comments == old(self).comments
                    &&& e.commands@.len() == 0
                    &&& !e.skip
                },
                Msg::FollowChangeCompleted(Ok(author)) => {
                    &&& match old(self).article {
                        Status::Loaded(a) => final(self).article == Status::Loaded(
                            Article { author: author, ..a },
                        ),
                        _ => final(self).article == old(self).article,
                    }
                    &&& final(self).errors == old(self).errors
                    &&& final(self).comments == old(self).comments
                    &&& e.commands@.len() == 0
                    &&& !e.skip
                },
                Msg::PostCommentCompleted(Ok(comment)) => {
                    &&& match old(self).comments {
                        Status::Loaded((_, comments)) => (final(self).comments matches Status::Loaded(
                            (CommentText::Editing(t), cs),
                        ) && t@.len() == 0 && cs@ == seq![comment] + comments@),
                        _ => final(self).comments == old(self).comments,
                    }
                    &&& final(self).errors == old(self).errors
                    &&& final(self).article == old(self).article
                    &&& e.commands@.len() == 0
                    &&& !e.skip
                },
                Msg::PostCommentCompleted(Err(errors)) => {
                    &&& match old(self).comments {
                        Status::Loaded((CommentText::Sending(text), comments)) => final(self).comments
                            == Status::Loaded((CommentText::Editing(text), comments)),
                        _ => final(self).comments == old(self).comments,
                    }
                    &&& final(self).errors == errors
                    &&& final(self).article == old(self).article
                    &&& logs_errors(e.commands@, errors@)
                    &&& !e.skip
                },
                Msg::DeleteArticleCompleted(Err(errors)) | Msg::DeleteCommentCompleted(Err(errors))
                | Msg::FavoriteChangeCompleted(Err(errors)) | Msg::FollowChangeCompleted(
                    Err(errors),
                ) => {
                    &&& final(self).errors == errors
                    &&& final(self).comments == old(self).comments
                    &&& final(self).article == old(self).article
                    &&& logs_errors(e.commands@, errors@)
                    &&& !e.skip
                },
                Msg::SlowLoadThresholdPassed => {
                    &&& final(self).article == if old(self).article is Loading {
                        Status::LoadingSlowly
                    } else {
                        old(self).article
                    }
                    &&& final(self).comments == if old(self).comments is Loading {
                        Status::LoadingSlowly
                    } else {
                        old(self).comments
                    }
                    &&& final(self).errors == old(self).errors
                    &&& e.commands@.len() == 0
                    &&& !e.skip
                },
                Msg::Unreachable => {
                    &&& *final(self) == *old(self)
                    &&& logs_error(e.commands@, unreachable_text())
                    &&& !e.skip
                },
            },
    {
        match msg {
            Msg::DeleteArticleClicked(slug) => skip_with(Command::DeleteArticle(slug)),
            Msg::DeleteCommentClicked(slug, id) => skip_with(Command::DeleteComment(slug, id)),
            Msg::DismissErrorsClicked => {
                self.errors = Vec::new();
                nothing()
            },
            Msg::FavoriteClicked(slug) => skip_with(Command::Unfavorite(slug)),
            Msg::UnfavoriteClicked(slug) => skip_with(Command::Favorite(slug)),
            Msg::FollowClicked(author) => skip_with(Command::Follow(author.username().clone())),
            Msg::UnfollowClicked(author) => skip_with(Command::Unfollow(author.username().clone())),
            Msg::PostCommentClicked(slug) => {
                let mut comments: Status<(CommentText, VecDeque<Comment>)> = Status::Loading;
                core::mem::swap(&mut comments, &mut self.comments);
                match comments {
                    Status::Loaded((CommentText::Editing(text), cs)) => {
                        if text.unicode_len() == 0 {
                            self.comments = Status::Loaded((CommentText::Editing(text), cs));
                            Effects { commands: Vec::new(), skip: true }
                        } else {
                            let sent = text.clone();
                            self.comments = Status::Loaded((CommentText::Sending(text), cs));
                            just(Command::CreateComment(slug, sent))
                        }
                    },
                    other => {
                        self.comments = other;
                        log_error("Comment can be created only in Editing mode!")
                    },
                }
            },
            Msg::CommentTextEntered(new_text) => {
                let mut comments: Status<(CommentText, VecDeque<Comment>)> = Status::Loading;
                core::mem::swap(&mut comments, &mut self.comments);
                match comments {
                    Status::Loaded((CommentText::Editing(_), cs)) => {
                        self.comments = Status::Loaded((CommentText::Editing(new_text), cs));
                        nothing()
                    },
                    other => {
                        self.comments = other;
                        log_error("Comment text can be changed only in Editing mode!")
                    },
                }
            },
            Msg::LoadArticleCompleted(Ok(article)) => {
                self.article = Status::Loaded(article);
                nothing()
            },
            Msg::LoadArticleCompleted(Err(errors)) => {
                self.article = Status::Failed;
                just(Command::LogErrors(errors))
            },
            Msg::LoadCommentsCompleted(Ok(comments)) => {
                self.comments = Status::Loaded((CommentText::Editing(String::new()), comments));
                nothing()
            },
            Msg::LoadCommentsCompleted(Err(errors)) => {
                self.comments = Status::Failed;
                just(Command::LogErrors(errors))
            },
            Msg::DeleteArticleCompleted(Ok(())) => just(Command::GoTo(Route::Home)),
            Msg::DeleteCommentCompleted(Ok(id)) => {
                let mut comments: Status<(CommentText, VecDeque<Comment>)> = Status::Loading;
                core::mem::swap(&mut comments, &mut self.comments);
                match comments {
                    Status::Loaded((text, cs)) => {
                        let kept = remove_comment(cs, &id);
                        self.comments = Status::Loaded((text, kept));
                    },
                    other => {
                        self.comments = other;
                    },
                }
                nothing()
            },
            Msg::FavoriteChangeCompleted(Ok(article)) => {
                self.article = Status::Loaded(article);
                nothing()
            },
            Msg::FollowChangeCompleted(Ok(author)) => {
                let mut article: Status<Article> = Status::Loading;
                core::mem::swap(&mut article, &mut self.article);
                match article {
                    Status::Loaded(a) => {
                        self.article = Status::Loaded(Article { author, ..a });
                    },
                    other => {
                        self.article = other;
                    },
                }
                nothing()
            },
            Msg::PostCommentCompleted(Ok(comment)) => {
                let mut comments: Status<(CommentText, VecDeque<Comment>)> = Status::Loading;
                core::mem::swap(&mut comments, &mut self.comments);
                match comments {
                    Status::Loaded((_, cs)) => {
                        let mut cs = cs;
                        cs.push_front(comment);
                        self.comments = Status::Loaded((CommentText::Editing(String::new()), cs));
                    },
                    other => {
                        self.comments = other;
                    },
                }
                nothing()
            },
            Msg::PostCommentCompleted(Err(errors)) => {
                let mut comments: Status<(CommentText, VecDeque<Comment>)> = Status::Loading;
                core::mem::swap(&mut comments, &mut self.comments);
                match comments {
                    Status::Loaded((CommentText::Sending(text), cs)) => {
                        self.comments = Status::Loaded((CommentText::Editing(text), cs));
                    },
                    other => {
                        self.comments = other;
                    },
                }
                let logged = copy_strings(&errors);
                self.errors = errors;
                just(Command::LogErrors(logged))
            },
            Msg::DeleteArticleCompleted(Err(errors)) | Msg::DeleteCommentCompleted(Err(errors))
            | Msg::FavoriteChangeCompleted(Err(errors)) | Msg::FollowChangeCompleted(
                Err(errors),
            ) => {
                let logged = copy_strings(&errors);
                self.errors = errors;
                just(Command::LogErrors(logged))
            },
            Msg::SlowLoadThresholdPassed => {
                if let Status::Loading = self.article {
                    self.article = Status::LoadingSlowly;
                }
                if let Status::Loading = self.comments {
                    self.comments = Status::LoadingSlowly;
                }
                nothing()
            },
            Msg::Unreachable => log_error("Unreachable!"),
        }
    }
}

} // verus!
