use vstd::prelude::*;

use crate::lister::{collect_file_names, listed_names, DirEntryInfo};
use crate::response::{BodyModel, HttpResponse, ResponseBody, ResponseModel};

verus! {

/// The fixed HTML skeleton that precedes the list items.
pub open spec fn index_header() -> Seq<char> {
    "
<!DOCTYPE html>
<html lang=\"en\">
  <head>
    <meta charset=\"UTF-8\">
    <title>index</title>
  </head>
  <body>
    <h3>Welcome</h3>
<ul>
"@
}

/// The fixed HTML text that follows the list items.
pub open spec fn index_footer() -> Seq<char> {
    "</ul></body></html>"@
}

/// One list item: a hyperlink whose target and label are both the raw file
/// name, unescaped.
pub open spec fn item_html(name: Seq<char>) -> Seq<char> {
    "<li><a href=\""@ + name + "\">"@ + name + "</a></li>"@
}

/// The list items for `names`, in order.
pub open spec fn items_html(names: Seq<Seq<char>>) -> Seq<char>
    decreases names.len(),
{
    if names.len() == 0 {
        Seq::empty()
    } else {
        items_html(names.drop_last()) + item_html(names.last())
    }
}

/// The whole index page for the file names `names`.
pub open spec fn index_html(names: Seq<Seq<char>>) -> Seq<char> {
    index_header() + items_html(names) + index_footer()
}

/// The response for a request to the root path, given the file names the
/// directory lister produced: always 200 with content type `text/html`.
pub open spec fn index_model(names: Seq<Seq<char>>) -> ResponseModel {
    ResponseModel {
        status: 200,
        content_type: Some("text/html"@),
        body: BodyModel::Text(index_html(names)),
    }
}

/// Renders the index page for `names`.
pub fn render_index(names: &Vec<String>) -> (r: String)
    ensures
        r@ == index_html(names.deep_view()),
{
    let mut contents = String::from_str(
        "
<!DOCTYPE html>
<html lang=\"en\">
  <head>
    <meta charset=\"UTF-8\">
    <title>index</title>
  </head>
  <body>
    <h3>Welcome</h3>
<ul>
",
    );
    let ghost all = names.deep_view();
    let mut i: usize = 0;
    while i < names.len()
        invariant
            0 <= i <= names.len(),
            all == names.deep_view(),
            all.len() == names.len(),
            contents@ == index_header() + items_html(all.take(i as int)),
        decreases names.len() - i,
    {
        let name = &names[i];
        contents.append("<li><a href=\"");
        contents.append(name.as_str());
        contents.append("\">");
        contents.append(name.as_str());
        contents.append("</a></li>");
        proof {
            assert(all[i as int] == name@);
            assert(all.take(i + 1).drop_last() =~= all.take(i as int));
            assert(all.take(i + 1).last() == name@);
            assert(items_html(all.take(i + 1)) == items_html(all.take(i as int)) + item_html(
                name@,
            ));
        }
        i += 1;
    }
    proof {
        assert(all.take(names.len() as int) =~= all);
    }
    contents.append("</ul></body></html>");
    contents
}

/// Builds the response for a request to the root path: the rendered index
/// page, status 200, content type `text/html`, whatever `names` holds.
pub fn index_view(names: &Vec<String>) -> (r: HttpResponse)
    ensures
        r@ == index_model(names.deep_view()),
{
    HttpResponse {
        status: 200,
        content_type: Some(String::from_str("text/html")),
        body: ResponseBody::Text(render_index(names)),
    }
}

/// Builds the response for a request to the root path from what the
/// directory read produced: the listed file names when the directory could
/// be read, and the empty listing when it could not — a listing failure is
/// degraded, never surfaced to the client.
pub fn index_for_listing(listing: Option<Vec<DirEntryInfo>>) -> (r: HttpResponse)
    ensures
        listing matches Some(entries) ==> r@ == index_model(listed_names(entries@)),
        listing is None ==> r@ == index_model(Seq::empty()),
{
    let names = match listing {
        Some(entries) => collect_file_names(&entries),
        None => Vec::new(),
    };
    proof {
        if listing is None {
            assert(names.deep_view() =~= Seq::<Seq<char>>::empty());
        }
    }
    index_view(&names)
}

/// A request to the root path is answered 200 with content type `text/html`
/// for every file name list, the empty one of an unreadable directory
/// included.
pub proof fn lemma_index_always_ok(names: Seq<Seq<char>>)
    ensures
        index_model(names).status == 200,
        index_model(names).content_type == Some("text/html"@),
{
}

/// Index rendering is idempotent: two renderings of the same file name list
/// are character-identical.
pub proof fn lemma_index_deterministic(names1: Seq<Seq<char>>, names2: Seq<Seq<char>>)
    requires
        names1 == names2,
    ensures
        index_html(names1) == index_html(names2),
{
}

} // verus!
