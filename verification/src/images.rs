//! The images that a toolbox can be made from, and the choice among them.

use vstd::prelude::*;
use crate::error::ToolboxError;
use crate::error::ToolboxErrorView;
use crate::names::DEFAULT_IMAGE;
use crate::text::join3;
use crate::text::push_text;
use crate::text::trim_end;
use crate::text::trim_end_string;

verus! {

/// What the container runtime tells of an image.
#[derive(Debug, PartialEq, Eq)]
pub struct ImageRecord {
    /// The names that the image goes by, where the runtime gives any.
    pub names: Option<Vec<String>>,
}

/// An `ImageRecord` with its texts as sequences of characters.
pub struct ImageRecordView {
    pub names: Option<Seq<Seq<char>>>,
}

impl ImageRecordView {
    /// Whether the runtime gave names for the image.
    pub open spec fn is_named(self) -> bool {
        self.names is Some
    }

    /// Whether the image has a name to show: the first of its names.
    pub open spec fn has_primary(self) -> bool {
        self.names is Some && self.names->0.len() > 0
    }

    /// The first name of the image.
    pub open spec fn primary(self) -> Seq<char>
        recommends
            self.has_primary(),
    {
        self.names->0[0]
    }
}

impl View for ImageRecord {
    type V = ImageRecordView;

    open spec fn view(&self) -> ImageRecordView {
        ImageRecordView { names: self.names.deep_view() }
    }
}

impl DeepView for ImageRecord {
    type V = ImageRecordView;

    open spec fn deep_view(&self) -> ImageRecordView {
        self@
    }
}

/// Those of `records` for which the runtime gave names, in order.
pub open spec fn named(records: Seq<ImageRecordView>) -> Seq<ImageRecordView> {
    records.filter(|r: ImageRecordView| r.is_named())
}

fn append_named(images: &mut Vec<ImageRecord>, more: Vec<ImageRecord>)
    ensures
        final(images).deep_view() == old(images).deep_view() + named(more.deep_view()),
{
    let ghost before = images.deep_view();
    let ghost all = more.deep_view();
    assert(images.deep_view() =~= before + named(all.subrange(0, 0))) by {
        reveal(Seq::filter);
    }
    for rec in it: more
        invariant
            all == more.deep_view(),
            images.deep_view() == before + named(all.subrange(0, it.index() as int)),
    {
        let ghost i = it.index() as int;
        let ghost sofar = images.deep_view();
        let ghost prefix = all.subrange(0, i + 1);
        assert(rec@ == all[i]);
        assert(prefix.drop_last() =~= all.subrange(0, i));
        assert(prefix.last() == rec@);
        assert(named(prefix) == if rec@.is_named() {
            named(all.subrange(0, i)).push(rec@)
        } else {
            named(all.subrange(0, i))
        }) by {
            reveal(Seq::filter);
        }
        if rec.names.is_some() {
            images.push(rec);
            assert(images.deep_view() =~= sofar.push(prefix.last()));
        }
        assert(images.deep_view() =~= before + named(prefix));
    }
    assert(all.subrange(0, all.len() as int) =~= all);
}

/// The toolbox images: those that carry the toolbox label, `own`, followed by
/// those that carry the label of the related family, `related`; of both, only
/// the ones that the runtime gave names for.
pub fn toolbox_images(own: Vec<ImageRecord>, related: Vec<ImageRecord>) -> (images: Vec<
    ImageRecord,
>)
    ensures
        images.deep_view() == named(own.deep_view() + related.deep_view()),
{
    let mut images: Vec<ImageRecord> = Vec::new();
    assert(images.deep_view() =~= Seq::<ImageRecordView>::empty());
    proof {
        Seq::filter_distributes_over_add(
            own.deep_view(),
            related.deep_view(),
            |r: ImageRecordView| r.is_named(),
        );
    }
    append_named(&mut images, own);
    append_named(&mut images, related);
    images
}

/// Every image of a list that `named` made has names.
pub proof fn lemma_named_are_named(records: Seq<ImageRecordView>)
    ensures
        forall|i: int| 0 <= i < named(records).len() ==> (#[trigger] named(records)[i]).is_named(),
        named(records).len() <= records.len(),
{
    broadcast use vstd::seq_lib::group_filter_ensures;
}

/// Where the image for a new toolbox comes from.
#[derive(Debug, PartialEq, Eq)]
pub enum DefaultImage {
    /// The user is asked.
    Ask,
    /// The one toolbox image that exists, by its first name.
    Named(String),
}

/// A `DefaultImage` with its text as a sequence of characters.
pub enum DefaultImageView {
    Ask,
    Named(Seq<char>),
}

impl View for DefaultImage {
    type V = DefaultImageView;

    open spec fn view(&self) -> DefaultImageView {
        match *self {
            DefaultImage::Ask => DefaultImageView::Ask,
            DefaultImage::Named(s) => DefaultImageView::Named(s@),
        }
    }
}

/// The image for a new toolbox where the user named none: with no toolbox
/// image the user is asked, a single one is taken, and several are a
/// failure, for nothing tells which is meant.
pub open spec fn default_image_of(images: Seq<ImageRecordView>) -> Result<
    DefaultImageView,
    ToolboxErrorView,
> {
    if images.len() == 0 {
        Ok(DefaultImageView::Ask)
    } else if images.len() == 1 {
        Ok(DefaultImageView::Named(images[0].primary()))
    } else {
        Err(ToolboxErrorView::MultipleImages)
    }
}

/// The view of a choice or of the failure in its place.
pub open spec fn default_image_view(r: Result<DefaultImage, ToolboxError>) -> Result<
    DefaultImageView,
    ToolboxErrorView,
> {
    match r {
        Ok(d) => Ok(d@),
        Err(e) => Err(e@),
    }
}

/// The image for a new toolbox where the user named none: see
/// `default_image_of`. A single image must have a name to be taken by.
pub fn default_image(images: &Vec<ImageRecord>) -> (r: Result<DefaultImage, ToolboxError>)
    requires
        images.len() == 1 ==> images[0]@.has_primary(),
    ensures
        default_image_view(r) == default_image_of(images.deep_view()),
{
    if images.len() == 0 {
        Ok(DefaultImage::Ask)
    } else if images.len() == 1 {
        match &images[0].names {
            Some(names) => Ok(DefaultImage::Named(names[0].clone())),
            None => Ok(DefaultImage::Ask),
        }
    } else {
        Err(ToolboxError::MultipleImages)
    }
}

/// The question put to the user where no toolbox image exists.
pub open spec fn image_prompt_text() -> Seq<char> {
    "Welcome to coretoolbox\nEnter a pull spec for toolbox image; default: "@ + DEFAULT_IMAGE@
        + "\nImage: "@
}

/// The question put to the user where no toolbox image exists.
pub fn image_prompt() -> (r: String)
    ensures
        r@ == image_prompt_text(),
{
    join3(
        "Welcome to coretoolbox\nEnter a pull spec for toolbox image; default: ",
        DEFAULT_IMAGE,
        "\nImage: ",
    )
}

/// The image that the answer `answer` names, once the white space at its
/// end is cut off: the answer itself, and the default image where it is
/// empty.
pub open spec fn image_of_answer(answer: Seq<char>) -> Seq<char> {
    if answer.len() == 0 {
        DEFAULT_IMAGE@
    } else {
        answer
    }
}

/// The image that the answer `answer` names: see `image_of_answer`.
pub fn image_from_answer(answer: String) -> (r: String)
    ensures
        r@ == image_of_answer(answer@),
{
    if answer.as_str().unicode_len() == 0 {
        String::from_str(DEFAULT_IMAGE)
    } else {
        answer
    }
}

/// The image that the user's reply `reply` names: what the reply names once
/// the white space at its end is cut off.
pub open spec fn image_of_reply(reply: Seq<char>) -> Seq<char> {
    image_of_answer(trim_end(reply))
}

/// The image that the user's reply `reply` names.
pub fn image_from_reply(reply: &str) -> (r: String)
    ensures
        r@ == image_of_reply(reply@),
{
    image_from_answer(trim_end_string(reply))
}

/// The lines that list `images`: the first name of each, or one line that
/// says that there are none.
pub open spec fn listing_of(images: Seq<ImageRecordView>) -> Seq<Seq<char>> {
    if images.len() == 0 {
        seq!["No toolbox images found."@]
    } else {
        images.map_values(|r: ImageRecordView| r.primary())
    }
}

/// The lines that list `images`, each of which must have a name to show.
pub fn listing(images: &Vec<ImageRecord>) -> (lines: Vec<String>)
    requires
        forall|i: int| 0 <= i < images.len() ==> (#[trigger] images[i])@.has_primary(),
    ensures
        lines.deep_view() == listing_of(images.deep_view()),
{
    let mut lines: Vec<String> = Vec::new();
    assert(lines.deep_view() =~= Seq::<Seq<char>>::empty());
    if images.len() == 0 {
        push_text(&mut lines, String::from_str("No toolbox images found."));
        assert(lines.deep_view() =~= listing_of(images.deep_view()));
        return lines;
    }
    let mut i: usize = 0;
    while i < images.len()
        invariant
            i <= images.len(),
            images.len() > 0,
            forall|j: int| 0 <= j < images.len() ==> (#[trigger] images[j])@.has_primary(),
            lines.deep_view() == listing_of(images.deep_view()).subrange(0, i as int),
        decreases images.len() - i,
    {
        assert(images[i as int]@.has_primary());
        assert(images.deep_view()[i as int] == images[i as int]@);
        match &images[i].names {
            Some(names) => {
                push_text(&mut lines, names[0].clone());
            },
            None => {},
        }
        assert(lines.deep_view() =~= listing_of(images.deep_view()).subrange(0, i + 1));
        i += 1;
    }
    assert(images.len() == images.deep_view().len());
    assert(listing_of(images.deep_view()).subrange(0, images.len() as int) =~= listing_of(
        images.deep_view(),
    ));
    lines
}

/// How the image for a new toolbox is found.
#[derive(Debug, PartialEq, Eq)]
pub enum ImageChoice {
    /// This image is used.
    Use(String),
    /// The toolbox images that exist decide: see `default_image`.
    Discover,
}

/// An `ImageChoice` with its text as a sequence of characters.
pub enum ImageChoiceView {
    Use(Seq<char>),
    Discover,
}

impl View for ImageChoice {
    type V = ImageChoiceView;

    open spec fn view(&self) -> ImageChoiceView {
        match *self {
            ImageChoice::Use(s) => ImageChoiceView::Use(s@),
            ImageChoice::Discover => ImageChoiceView::Discover,
        }
    }
}

/// How the image for a new toolbox is found: the image that the user gave
/// is used; where none was given, the toolbox images that exist decide,
/// whatever name the container is to have and whatever containers exist.
pub open spec fn image_choice_of(image: Option<Seq<char>>) -> ImageChoiceView {
    match image {
        Some(i) => ImageChoiceView::Use(i),
        None => ImageChoiceView::Discover,
    }
}

/// How the image for a new toolbox is found: see `image_choice_of`.
pub fn choose_image(image: &Option<String>) -> (r: ImageChoice)
    ensures
        r@ == image_choice_of(image.deep_view()),
{
    match image {
        Some(i) => ImageChoice::Use(i.clone()),
        None => ImageChoice::Discover,
    }
}

/// The image for a new toolbox, from what the user gave and the toolbox
/// images that exist: the image given; with none given, the one toolbox
/// image that exists; with none given and none existing, the user is asked;
/// with none given and several existing, nothing tells which is meant.
pub open spec fn image_for_create(
    image: Option<Seq<char>>,
    images: Seq<ImageRecordView>,
) -> Result<DefaultImageView, ToolboxErrorView> {
    match image_choice_of(image) {
        ImageChoiceView::Use(i) => Ok(DefaultImageView::Named(i)),
        ImageChoiceView::Discover => default_image_of(images),
    }
}

/// With no image given, a single toolbox image is taken by its first name,
/// without asking, whether or not a name was given for the container.
pub proof fn lemma_sole_image_is_taken(images: Seq<ImageRecordView>)
    requires
        images.len() == 1,
    ensures
        image_for_create(None, images) == Ok::<DefaultImageView, ToolboxErrorView>(
            DefaultImageView::Named(images[0].primary()),
        ),
{
}

} // verus!
