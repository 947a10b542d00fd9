use cyclonedds_idlc::alignment::{Alignment, AlignmentType};

#[test]
fn alignment_values_and_renderings() {
    assert_eq!(Alignment::new(AlignmentType::One).get_value(), 1);
    assert_eq!(Alignment::new(AlignmentType::One).to_str(), "1u");
    assert_eq!(Alignment::new(AlignmentType::Bool).get_value(), 0);
    assert_eq!(Alignment::new(AlignmentType::Bool).to_str(), "sizeof(bool)");
    assert_eq!(
        Alignment::new(AlignmentType::OneOrBool).to_str(),
        "(sizeof(bool)>1u)?sizeof(bool):1u)"
    );
    assert_eq!(Alignment::new(AlignmentType::Two).get_value(), 2);
    assert_eq!(
        Alignment::new(AlignmentType::TwoOrBool).to_str(),
        "(sizeof(bool)>2u)?sizeof(bool):2u"
    );
    assert_eq!(Alignment::new(AlignmentType::Four).get_value(), 4);
    assert_eq!(Alignment::new(AlignmentType::Ptr).to_str(), "sizeof (char *)");
    assert_eq!(Alignment::new(AlignmentType::Ptr).get_value(), 0);
    assert_eq!(Alignment::new(AlignmentType::Eight).get_value(), 8);
    assert_eq!(Alignment::new(AlignmentType::Eight).get_ordering(), 8);
}

#[test]
fn merging_bool_widens_small_alignments() {
    let r = Alignment::new(AlignmentType::One).maximum(Alignment::new(AlignmentType::Bool));
    assert_eq!(r.to_str(), "(sizeof(bool)>1u)?sizeof(bool):1u)");
    let r = Alignment::new(AlignmentType::Two).maximum(Alignment::new(AlignmentType::Bool));
    assert_eq!(r.to_str(), "(sizeof(bool)>2u)?sizeof(bool):2u");
}

#[test]
fn merging_bool_leaves_large_alignments() {
    let r = Alignment::new(AlignmentType::Four).maximum(Alignment::new(AlignmentType::Bool));
    assert_eq!(r.to_str(), "4u");
    let r = Alignment::new(AlignmentType::Eight).maximum(Alignment::new(AlignmentType::Bool));
    assert_eq!(r.to_str(), "8u");
    let r = Alignment::new(AlignmentType::Ptr).maximum(Alignment::new(AlignmentType::Bool));
    assert_eq!(r.to_str(), "sizeof (char *)");
}

#[test]
fn merging_non_bool_picks_larger_rank() {
    let r = Alignment::new(AlignmentType::Two).maximum(Alignment::new(AlignmentType::Eight));
    assert_eq!(r.to_str(), "8u");
    let r = Alignment::new(AlignmentType::Eight).maximum(Alignment::new(AlignmentType::Two));
    assert_eq!(r.to_str(), "8u");
    // a tie keeps the left operand
    let r = Alignment::new(AlignmentType::Four).maximum(Alignment::new(AlignmentType::Four));
    assert_eq!(r.to_str(), "4u");
}

#[test]
fn merge_order_does_not_matter_without_bool() {
    // the same classes in two orders fold to the same maximum
    let fold1 = Alignment::new(AlignmentType::One)
        .maximum(Alignment::new(AlignmentType::Four))
        .maximum(Alignment::new(AlignmentType::Two))
        .maximum(Alignment::new(AlignmentType::Eight));
    let fold2 = Alignment::new(AlignmentType::Eight)
        .maximum(Alignment::new(AlignmentType::Two))
        .maximum(Alignment::new(AlignmentType::One))
        .maximum(Alignment::new(AlignmentType::Four));
    assert_eq!(fold1.to_str(), fold2.to_str());
    assert_eq!(fold1.get_ordering(), 8);
}
