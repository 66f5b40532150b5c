//! Laws that tie the handlers together: they agree on where an article
//! lives, so what one handler stores the others find.
use vstd::prelude::*;

use crate::handler::create::CreateFlow;
use crate::handler::delete::DeleteFlow;
use crate::handler::read::ReadFlow;
use crate::handler::update::UpdateFlow;
use crate::markdown::{
    in_margin, is_plain_text, is_relative_target, lemma_no_link_text_kept, lemma_plain_run, md_start,
    rewrite_md, rewritten_markdown, MdState,
};
use crate::settings::Settings;
use crate::text::slug_of;

verus! {

/// An article created under a title is looked up, updated and deleted under
/// the slug its creation recorded, by any title with the same slug: titles
/// that differ only in spaces and underscores (`My Post`, `My_Post`) name
/// the same article, and a second creation under such a title looks up the
/// slug the first one recorded.
pub proof fn lemma_handlers_agree_on_slug(
    create: CreateFlow,
    read: ReadFlow,
    update: UpdateFlow,
    delete: DeleteFlow,
)
    requires
        create.wf(),
        read.wf(),
        update.wf(),
        delete.wf(),
        slug_of(read.title@) == slug_of(create.title@),
        slug_of(update.title@) == slug_of(create.title@),
        slug_of(delete.title@) == slug_of(create.title@),
    ensures
        read.slug@ == create.slug@,
        update.slug@ == create.slug@,
        delete.slug@ == create.slug@,
{
}

/// An update leaves the article as a creation under its new title would
/// have: the same slug, the same directory and the same markdown address.
pub proof fn lemma_update_matches_creation(update: UpdateFlow, create: CreateFlow)
    requires
        update.wf(),
        create.wf(),
        update.settings == create.settings,
        create.title@ == update.stored_title(),
    ensures
        update.updated_slug@ == create.slug@,
        update.settings.article_dir_of(update.updated_slug@) == create.settings.article_dir_of(
            create.slug@,
        ),
        update.settings.markdown_url_of(update.updated_slug@)
            == create.settings.markdown_url_of(create.slug@),
{
}

/// The markdown file a creation rewrites is the `main.md` the archive was
/// unpacked into.
pub proof fn lemma_markdown_in_unpacked_archive(settings: Settings, slug: Seq<char>)
    ensures
        settings.markdown_path_of(slug) == settings.archive_dir_of(slug) + "main.md"@,
{
    reveal_strlit("/main.md");
    reveal_strlit("/");
    reveal_strlit("main.md");
    assert("/main.md"@ =~= "/"@ + "main.md"@);
    assert(settings.markdown_path_of(slug) =~= settings.archive_dir_of(slug) + "main.md"@);
}

/// Rewritten for the address of an article's folder, a link or image into
/// the archive's `imgs/` directory points at the article's `imgs/` on the
/// static server: `[x](./imgs/f)` becomes `[x]({web}/{slug}/imgs/f)`, after
/// any plain text `pre` that starts with no white space (such as the `!` of
/// an image).
pub proof fn lemma_image_links_point_into_article(
    settings: Settings,
    slug: Seq<char>,
    pre: Seq<char>,
    x: Seq<char>,
    file: Seq<char>,
)
    requires
        is_plain_text(pre),
        pre.len() > 0 ==> pre[0] != ' ' && pre[0] != '\t',
        is_plain_text(x),
        forall|i: int| 0 <= i < file.len() ==> file[i] != '[',
    ensures
        rewritten_markdown(
            pre + "["@ + x + "](./imgs/"@ + file,
            settings.article_folder_url_of(slug),
        ) == pre + "["@ + x + "]("@ + settings.article_url_of(slug) + "/imgs/"@ + file,
{
    reveal_strlit("[");
    reveal_strlit("](./imgs/");
    reveal_strlit("](");
    reveal_strlit("/imgs/");
    reveal_strlit("/");
    reveal_strlit("./imgs/");
    let u = settings.article_folder_url_of(slug);
    let r3 = "./imgs/"@ + file;
    let r2 = seq![']', '('] + r3;
    let r1 = seq!['['] + (x + r2);
    assert(pre + "["@ + x + "](./imgs/"@ + file =~= pre + r1);
    // the text before the link
    lemma_plain_run(pre, r1, u, md_start());
    let st1 = if pre.len() > 0 {
        MdState { blank: false, ..md_start() }
    } else {
        md_start()
    };
    // the opening `[`
    let st2 = MdState {
        depth: 1,
        def_label: in_margin(st1) && !st1.para,
        blank: false,
        ..st1
    };
    assert(r1.skip(1) =~= x + r2);
    assert(rewrite_md(r1, u, st1) == seq!['['] + rewrite_md(x + r2, u, st2));
    // the link text
    lemma_plain_run(x, r2, u, st2);
    assert(MdState { blank: false, ..st2 } == st2);
    // the `](` that closes it
    let st3 = MdState { depth: 0, target: true, def_label: false, blank: false, ..st2 };
    assert(r2.skip(2) =~= r3);
    assert(r2.take(2) =~= seq![']', '(']);
    assert(rewrite_md(r2, u, st2) == seq![']', '('] + rewrite_md(r3, u, st3));
    // the relative target `./imgs/...`
    let st4 = MdState { blank: false, target: false, ..st3 };
    let r4 = seq!['i', 'm', 'g', 's', '/'] + file;
    assert(r3[0] == '.');
    assert(is_relative_target(r3));
    assert(r3.skip(2) =~= r4);
    assert(rewrite_md(r3, u, st3) == u + rewrite_md(r4, u, st4));
    lemma_no_link_text_kept(r4, u, st4);
    assert(pre + (seq!['['] + (x + (seq![']', '('] + (u + r4)))) =~= pre + "["@ + x + "]("@
        + settings.article_url_of(slug) + "/imgs/"@ + file);
}

} // verus!
