use vstd::prelude::*;

verus! {

/// One entry of the article listing.
pub struct ArticleRow {
    pub id: i64,
    pub article_name: String,
}

impl ArticleRow {
    /// The single article that the listing currently holds.
    pub fn new() -> (r: ArticleRow)
        ensures
            r.is_first(),
    {
        ArticleRow { id: 1, article_name: String::from_str("first article.") }
    }

    /// The row is the fixed first article: id 1, named "first article.".
    pub open spec fn is_first(&self) -> bool {
        self.id == 1 && self.article_name@ == "first article."@
    }
}

/// An ordered list of article rows.
pub struct ArticleData {
    pub items: Vec<ArticleRow>,
}

impl ArticleData {
    /// An empty list.
    pub fn new() -> (r: ArticleData)
        ensures
            r.items@.len() == 0,
    {
        ArticleData { items: Vec::new() }
    }

    /// Appends a row at the end of the list.
    pub fn push(&mut self, row: ArticleRow)
        ensures
            final(self).items@ == old(self).items@.push(row),
    {
        self.items.push(row);
    }
}

/// The envelope of the article listing: a status, a message and the rows.
pub struct Retarticles {
    pub status: i64,
    pub msg: String,
    pub data: ArticleData,
}

impl Retarticles {
    /// The listing holds exactly one row, the first article, with status 0
    /// and an empty message.
    pub open spec fn is_listing(&self) -> bool {
        &&& self.status == 0
        &&& self.msg@.len() == 0
        &&& self.data.items@.len() == 1
        &&& self.data.items@[0].is_first()
    }
}

/// Answers a listing request for the trailing path `pages`.
///
/// The trailing path is accepted and not read: every request gets the same
/// listing, which holds the first article alone.
pub fn get_article(pages: &str) -> (r: Retarticles)
    ensures
        r.is_listing(),
{
    let data_item = ArticleRow::new();
    let mut tmp_data = ArticleData::new();
    tmp_data.push(data_item);
    Retarticles { status: 0, msg: String::new(), data: tmp_data }
}

} // verus!
