use single_player::descriptor::Descriptor;

#[test]
fn simple_usage() {
    let mut d = Descriptor::from_name("Player.tall.is_fast.woken_up.space between");
    assert!(d.has_tag("tall"));
    assert!(d.has_tag("is_fast"));
    assert!(d.has_tag("woken_up"));
    assert!(d.has_tag("space between"));

    assert!(!d.has_tag("untagged"));
    d.add_tag("untagged");
    assert!(d.has_tag("untagged"));

    assert_eq!(d.object_name(), "Player");
}
