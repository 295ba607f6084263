use lhlist::{
    labeled, labeled_typearg, BuildStrLabels, Cons, HasLabels, LCons, Label, LabeledValue, Nil,
    StrLabels, Value,
};
use std::marker::PhantomData;
use typenum::{UInt, UTerm, B0, B1};

#[derive(Debug, Copy, Clone, Hash, PartialEq, Eq)]
struct Label1;
impl Label for Label1 {
    const NAME: &'static str = "My Label";
    type AssocType = ();
    type Uid = UTerm;
}

#[derive(Debug, Copy, Clone, Hash, PartialEq, Eq)]
struct Label2;
impl Label for Label2 {
    const NAME: &'static str = "Label2";
    type AssocType = u8;
    type Uid = UInt<UTerm, B1>;
}

#[derive(Debug, Copy, Clone, Hash, PartialEq, Eq)]
struct Label3;
impl Label for Label3 {
    const NAME: &'static str = "Label3";
    type AssocType = ();
    type Uid = UInt<UInt<UTerm, B1>, B0>;
}

#[derive(Debug, Copy, Clone, Hash, PartialEq, Eq)]
struct Small;
impl Label for Small {
    const NAME: &'static str = "Small";
    type AssocType = u8;
    type Uid = UInt<UInt<UInt<UTerm, B0>, B1>, B1>;
}

#[derive(Debug, Copy, Clone, Hash, PartialEq, Eq)]
struct Wide;
impl Label for Wide {
    const NAME: &'static str = "Wide";
    type AssocType = u16;
    type Uid = UInt<UInt<UInt<UTerm, B1>, B0>, B0>;
}

#[derive(Debug, Copy, Clone, Hash, PartialEq, Eq)]
struct Signed;
impl Label for Signed {
    const NAME: &'static str = "Signed";
    type AssocType = i16;
    type Uid = UInt<UInt<UInt<UInt<UTerm, B0>, B1>, B0>, B1>;
}

type Numbers = Cons<LabeledValue<Small>, Cons<LabeledValue<Wide>, Cons<LabeledValue<Signed>, Nil>>>;

fn numbers() -> Numbers {
    Cons {
        head: LabeledValue::<Small>::new(2),
        tail: Cons {
            head: LabeledValue::<Wide>::new(301),
            tail: Cons { head: LabeledValue::<Signed>::new(-523), tail: Nil },
        },
    }
}

#[test]
fn label_label_create() {
    #[derive(Debug, Copy, Clone, Hash, PartialEq, Eq)]
    struct Label1;
    impl Label for Label1 {
        const NAME: &'static str = "My Label";
        type AssocType = ();
        type Uid = UTerm;
    }
    #[derive(Debug, Copy, Clone, Hash, PartialEq, Eq)]
    struct Label2;
    impl Label for Label2 {
        const NAME: &'static str = "Label2";
        type AssocType = u8;
        type Uid = UInt<UTerm, B1>;
    }
    #[derive(Debug, Copy, Clone, Hash, PartialEq, Eq)]
    struct Label3;
    impl Label for Label3 {
        const NAME: &'static str = "Label3";
        type AssocType = ();
        type Uid = UInt<UInt<UTerm, B1>, B0>;
    }

    assert_eq!(Label1::name(), "My Label");

    assert_eq!(Label2::name(), "Label2");
    assert_eq!(<Label2 as Label>::AssocType::max_value(), 255u8);

    assert_eq!(Label3::name(), "Label3");
}

#[test]
fn label_create() {
    #[derive(Debug, Copy, Clone, Hash, PartialEq, Eq)]
    struct Label1;
    impl Label for Label1 {
        const NAME: &'static str = "My Label";
        type AssocType = ();
        type Uid = UTerm;
    }
    #[derive(Debug, Copy, Clone, Hash, PartialEq, Eq)]
    struct Label2;
    impl Label for Label2 {
        const NAME: &'static str = "Label2";
        type AssocType = u8;
        type Uid = UInt<UTerm, B1>;
    }
    #[derive(Debug, Copy, Clone, Hash, PartialEq, Eq)]
    struct Label3;
    impl Label for Label3 {
        const NAME: &'static str = "Label3";
        type AssocType = ();
        type Uid = UInt<UInt<UTerm, B1>, B0>;
    }

    assert_eq!(Label1::name(), "My Label");

    assert_eq!(Label2::name(), "Label2");
    assert_eq!(<Label2 as Label>::AssocType::max_value(), 255u8);

    assert_eq!(Label3::name(), "Label3");
}

#[test]
fn label_has_labels() {
    #[derive(Debug, Copy, Clone, Hash, PartialEq, Eq)]
    struct Label1;
    impl Label for Label1 {
        const NAME: &'static str = "Label1";
        type AssocType = u8;
        type Uid = UInt<UInt<UInt<UTerm, B0>, B1>, B1>;
    }
    #[derive(Debug, Copy, Clone, Hash, PartialEq, Eq)]
    struct Label2;
    impl Label for Label2 {
        const NAME: &'static str = "Label2";
        type AssocType = u16;
        type Uid = UInt<UInt<UInt<UTerm, B1>, B0>, B0>;
    }
    #[derive(Debug, Copy, Clone, Hash, PartialEq, Eq)]
    struct Label3;
    impl Label for Label3 {
        const NAME: &'static str = "Label3";
        type AssocType = i16;
        type Uid = UInt<UInt<UInt<UInt<UTerm, B0>, B1>, B0>, B1>;
    }
    let test_list = Cons {
        head: LabeledValue::<Label1>::new(2),
        tail: Cons {
            head: LabeledValue::<Label2>::new(301),
            tail: Cons { head: LabeledValue::<Label3>::new(-523), tail: Nil },
        },
    };
    let iter = test_list.iter();
    let (item, iter) = iter.next();
    assert_eq!(item, &labeled(Label1, 2));
    let (item, iter) = iter.next();
    assert_eq!(item, &labeled(Label2, 301));
    let (item, _) = iter.next();
    assert_eq!(item, &labeled(Label3, -523));

    let labels_only = test_list.labels_only();
    let iter = labels_only.iter();
    let (item, iter) = iter.next();
    assert_eq!(item, &PhantomData::<Label1>::default());
    let (item, iter) = iter.next();
    assert_eq!(item, &PhantomData::<Label2>::default());
    let (item, _) = iter.next();
    assert_eq!(item, &PhantomData::<Label3>::default());
}

#[test]
fn has_labels() {
    #[derive(Debug, Copy, Clone, Hash, PartialEq, Eq)]
    struct Label1;
    impl Label for Label1 {
        const NAME: &'static str = "Label1";
        type AssocType = u8;
        type Uid = UInt<UInt<UInt<UTerm, B0>, B1>, B1>;
    }
    #[derive(Debug, Copy, Clone, Hash, PartialEq, Eq)]
    struct Label2;
    impl Label for Label2 {
        const NAME: &'static str = "Label2";
        type AssocType = u16;
        type Uid = UInt<UInt<UInt<UTerm, B1>, B0>, B0>;
    }
    #[derive(Debug, Copy, Clone, Hash, PartialEq, Eq)]
    struct Label3;
    impl Label for Label3 {
        const NAME: &'static str = "Label3";
        type AssocType = i16;
        type Uid = UInt<UInt<UInt<UInt<UTerm, B0>, B1>, B0>, B1>;
    }
    let test_list = Cons {
        head: LabeledValue::<Label1>::new(2),
        tail: Cons {
            head: LabeledValue::<Label2>::new(301),
            tail: Cons { head: LabeledValue::<Label3>::new(-523), tail: Nil },
        },
    };
    let iter = test_list.iter();
    let (item, iter) = iter.next();
    assert_eq!(item, &labeled(Label1, 2));
    let (item, iter) = iter.next();
    assert_eq!(item, &labeled(Label2, 301));
    let (item, _) = iter.next();
    assert_eq!(item, &labeled(Label3, -523));

    let labels_only = test_list.labels_only();
    let iter = labels_only.iter();
    let (item, iter) = iter.next();
    assert_eq!(item, &PhantomData::<Label1>::default());
    let (item, iter) = iter.next();
    assert_eq!(item, &PhantomData::<Label2>::default());
    let (item, _) = iter.next();
    assert_eq!(item, &PhantomData::<Label3>::default());
}

#[test]
fn labels_only_names_the_same_labels() {
    let labels_only = numbers().labels_only();
    assert!(labels_only.has_label(Small));
    assert!(labels_only.has_label(Wide));
    assert!(labels_only.has_label(Signed));
    assert!(!labels_only.has_label(Label1));
    assert_eq!(labels_only.labels(), vec!["Small", "Wide", "Signed"]);
    assert_eq!(Nil.labels_only(), Nil);
}

#[test]
fn str_labels_lists_the_names_in_order() {
    let list = Cons {
        head: LabeledValue::<Label1>::new(()),
        tail: Cons {
            head: LabeledValue::<Label2>::new(7),
            tail: Cons { head: LabeledValue::<Label3>::new(()), tail: Nil },
        },
    };
    assert_eq!(list.labels(), vec!["My Label", "Label2", "Label3"]);
    assert_eq!(<Numbers as StrLabels>::static_labels(), vec!["Small", "Wide", "Signed"]);
    assert_eq!(<Nil as StrLabels>::static_labels(), Vec::<&'static str>::new());
    assert_eq!(Nil.labels(), Vec::<&'static str>::new());
}

#[test]
fn build_labels_writes_from_the_given_place() {
    let mut names = vec!["kept", "", "", ""];
    <Numbers as BuildStrLabels>::build_labels(&mut names, 1);
    assert_eq!(names, vec!["kept", "Small", "Wide", "Signed"]);

    let mut names = vec!["kept"];
    <Nil as BuildStrLabels>::build_labels(&mut names, 1);
    assert_eq!(names, vec!["kept"]);
}

#[test]
fn wrappers_forward_the_label() {
    assert_eq!(<PhantomData<Label1> as Label>::name(), "My Label");
    assert_eq!(<LabeledValue<Label2> as Label>::name(), "Label2");
    assert_eq!(<LabeledValue<Signed> as Label>::id(), 5);
    assert_eq!(<PhantomData<Wide> as Label>::id(), 4);
    assert_eq!(<LabeledValue<Label2> as Label>::AssocType::max_value(), 255u8);
}

#[test]
fn labeled_value_gives_access_to_its_value() {
    let mut value = labeled_typearg::<Wide>(301);
    assert_eq!(value, labeled(Wide, 301));
    assert_eq!(value, LabeledValue::<Wide>::new(301));
    assert_eq!(value.value_ref(), &301);
    *value.value_mut() = 7;
    assert_eq!(value.value, 7);
    assert_eq!(value.value_ref(), &7);
}

#[test]
fn default_list_of_labels() {
    let labels = <LCons<Small, LCons<Wide, Nil>>>::default();
    assert_eq!(labels, Cons { head: PhantomData::<Small>, tail: Cons { head: PhantomData::<Wide>, tail: Nil } });
    assert_eq!(Nil::default(), Nil);
    assert_eq!(labels.labels(), vec!["Small", "Wide"]);
}
