use coretoolbox::error::ToolboxError;
use coretoolbox::images::default_image;
use coretoolbox::images::image_from_answer;
use coretoolbox::images::image_from_reply;
use coretoolbox::images::image_prompt;
use coretoolbox::images::listing;
use coretoolbox::images::toolbox_images;
use coretoolbox::images::DefaultImage;
use coretoolbox::images::ImageRecord;

fn image(names: &[&str]) -> ImageRecord {
    ImageRecord { names: Some(names.iter().map(|n| String::from(*n)).collect()) }
}

fn nameless() -> ImageRecord {
    ImageRecord { names: None }
}

#[test]
fn images_without_names_are_left_out() {
    let own = vec![image(&["a:1"]), nameless(), image(&["b:1", "b:latest"])];
    let related = vec![nameless(), image(&["c:1"])];
    assert_eq!(
        toolbox_images(own, related),
        vec![image(&["a:1"]), image(&["b:1", "b:latest"]), image(&["c:1"])]
    );
}

#[test]
fn images_keep_their_order_and_their_doubles() {
    assert_eq!(toolbox_images(Vec::new(), Vec::new()), Vec::new());
    assert_eq!(toolbox_images(vec![nameless()], vec![nameless()]), Vec::new());
    assert_eq!(
        toolbox_images(vec![image(&["a"])], vec![image(&["a"])]),
        vec![image(&["a"]), image(&["a"])]
    );
    assert_eq!(toolbox_images(Vec::new(), vec![image(&[])]), vec![image(&[])]);
}

#[test]
fn no_image_means_asking() {
    assert_eq!(default_image(&Vec::new()), Ok(DefaultImage::Ask));
}

#[test]
fn a_single_image_is_taken() {
    assert_eq!(
        default_image(&vec![image(&["fedora-toolbox:30", "other"])]),
        Ok(DefaultImage::Named(String::from("fedora-toolbox:30")))
    );
}

#[test]
fn several_images_are_a_failure() {
    let failed = default_image(&vec![image(&["a"]), image(&["b"])]).unwrap_err();
    assert_eq!(failed, ToolboxError::MultipleImages);
    assert_eq!(failed.message(), "Multiple toolbox images found, must specify via -I");
    assert_eq!(
        default_image(&vec![nameless(), nameless(), nameless()]),
        Err(ToolboxError::MultipleImages)
    );
}

#[test]
fn the_question() {
    assert_eq!(
        image_prompt(),
        "Welcome to coretoolbox\nEnter a pull spec for toolbox image; default: registry.fedoraproject.org/f30/fedora-toolbox:30\nImage: "
    );
}

#[test]
fn the_answer() {
    assert_eq!(image_from_reply("quay.io/me/box:1\n"), "quay.io/me/box:1");
    assert_eq!(image_from_reply("  quay.io/me/box:1  \r\n"), "  quay.io/me/box:1");
    assert_eq!(image_from_reply("\n"), "registry.fedoraproject.org/f30/fedora-toolbox:30");
    assert_eq!(image_from_reply(""), "registry.fedoraproject.org/f30/fedora-toolbox:30");
    assert_eq!(image_from_reply("   \t\n"), "registry.fedoraproject.org/f30/fedora-toolbox:30");
}

#[test]
fn the_answer_without_its_end() {
    assert_eq!(image_from_answer(String::from("quay.io/me/box:1")), "quay.io/me/box:1");
    assert_eq!(image_from_answer(String::from(" x")), " x");
    assert_eq!(
        image_from_answer(String::new()),
        "registry.fedoraproject.org/f30/fedora-toolbox:30"
    );
}

#[test]
fn listing_images() {
    assert_eq!(listing(&Vec::new()), vec!["No toolbox images found."]);
    assert_eq!(
        listing(&vec![image(&["a:1", "a:latest"]), image(&["b:2"])]),
        vec!["a:1", "b:2"]
    );
}
