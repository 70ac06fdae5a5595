//! Flyweight: what many objects have in common is kept once and handed
//! out, so that the objects need not each hold all of it.
//!
//! Users and articles are kept by their providers, each under a number;
//! a comment is put together from what the providers hand out.

use std::collections::HashMap;
use vstd::prelude::*;

verus! {

broadcast use vstd::std_specs::hash::group_hash_axioms;

/// An article.
pub struct Article {
    pub id: u64,
    pub author: u64,
    pub content: String,
    pub title: String,
}

impl Clone for Article {
    fn clone(&self) -> (copy: Self)
        ensures
            copy == *self,
    {
        Article {
            id: self.id,
            author: self.author,
            content: self.content.clone(),
            title: self.title.clone(),
        }
    }
}

/// Keeps the articles.
pub struct ArticleProvider {
    pub articles: HashMap<u64, Article>,
}

impl ArticleProvider {
    /// Keeps a new article. It is kept under the number of its author, so
    /// that an author has one article at a time: the last one.
    pub fn new_article(&mut self, id: u64, author: u64, title: String, content: String)
        ensures
            final(self).articles@ == old(self).articles@.insert(
                author,
                Article { id, author, content, title },
            ),
    {
        self.articles.insert(author, Article { id, author, content, title });
    }

    /// The article kept under `id`, if there is one.
    pub fn get(&self, id: u64) -> (article: Option<&Article>)
        ensures
            article == if self.articles@.contains_key(id) {
                Some(&self.articles@[id])
            } else {
                None
            },
    {
        self.articles.get(&id)
    }
}

/// The author of articles and comments.
pub struct Author {
    pub id: u64,
    pub name: String,
    pub age: u64,
}

impl Clone for Author {
    fn clone(&self) -> (copy: Self)
        ensures
            copy == *self,
    {
        Author { id: self.id, name: self.name.clone(), age: self.age }
    }
}

/// Keeps the users.
pub struct UserProvider {
    pub users: HashMap<u64, Author>,
}

impl UserProvider {
    /// Keeps a new user under `id`, in place of the one who was there.
    pub fn new_user(&mut self, id: u64, name: String, age: u64)
        ensures
            final(self).users@ == old(self).users@.insert(id, Author { id, name, age }),
    {
        self.users.insert(id, Author { id, name, age });
    }

    /// The user kept under `id`, if there is one.
    pub fn get(&self, id: u64) -> (user: Option<&Author>)
        ensures
            user == if self.users@.contains_key(id) {
                Some(&self.users@[id])
            } else {
                None
            },
    {
        self.users.get(&id)
    }
}

/// A comment on an article, as it is sent out: with its author and the
/// article in full.
pub struct CommentResponse {
    pub author: Author,
    pub content: String,
    pub article: Article,
}

impl CommentResponse {
    /// Whether this is the comment `content` of the author Kevin, number 1
    /// and 20 years of age, on the article number 1 by the same author,
    /// which has the title "Title" and the content "Content".
    pub open spec fn is_demo_comment(&self, content: Seq<char>) -> bool {
        &&& self.content@ == content
        &&& self.author.id == 1
        &&& self.author.name@ == "Kevin"@
        &&& self.author.age == 20
        &&& self.article.id == 1
        &&& self.article.author == 1
        &&& self.article.title@ == "Title"@
        &&& self.article.content@ == "Content"@
    }
}

/// Keeps two users and an article of each, then puts together two comments
/// of the first user on the first article and returns them.
pub fn demo_flyweight() -> (comments: Vec<CommentResponse>)
    ensures
        comments@.len() == 2,
        comments@[0].is_demo_comment("comment1"@),
        comments@[1].is_demo_comment("comment2"@),
{
    let mut users = UserProvider { users: HashMap::new() };
    users.new_user(1, "Kevin".to_owned(), 20);
    users.new_user(2, "Annie".to_owned(), 19);

    let mut articles = ArticleProvider { articles: HashMap::new() };
    articles.new_article(1, 1, "Title".to_owned(), "Content".to_owned());
    articles.new_article(2, 2, "Title".to_owned(), "Content".to_owned());

    let mut resp_comments: Vec<CommentResponse> = Vec::new();
    resp_comments.push(
        CommentResponse {
            author: users.get(1).unwrap().clone(),
            content: "comment1".to_owned(),
            article: articles.get(1).unwrap().clone(),
        },
    );
    resp_comments.push(
        CommentResponse {
            author: users.get(1).unwrap().clone(),
            content: "comment2".to_owned(),
            article: articles.get(1).unwrap().clone(),
        },
    );
    resp_comments
}

} // verus!
