use lhlist::{labeled, Cons, Label, LabeledValue, LookupElemByLabel, LookupFrame, Nil};
use std::marker::PhantomData;
use typenum::{UInt, UTerm, B0, B1};

#[derive(Debug, Copy, Clone, Hash, PartialEq, Eq)]
struct Label1;
impl Label for Label1 {
    const NAME: &'static str = "My Label";
    type AssocType = String;
    type Uid = UTerm;
}

#[derive(Debug, Copy, Clone, Hash, PartialEq, Eq)]
struct Label2;
impl Label for Label2 {
    const NAME: &'static str = "Label2";
    type AssocType = u8;
    type Uid = UInt<UTerm, B1>;
}

#[derive(Debug, Copy, Clone, Hash, PartialEq, Eq)]
struct Label3;
impl Label for Label3 {
    const NAME: &'static str = "Label3";
    type AssocType = &'static str;
    type Uid = UInt<UInt<UTerm, B1>, B0>;
}

#[derive(Debug, Copy, Clone, Hash, PartialEq, Eq)]
struct La;
impl Label for La {
    const NAME: &'static str = "La";
    type AssocType = i32;
    type Uid = UInt<UInt<UInt<UTerm, B0>, B1>, B1>;
}

#[derive(Debug, Copy, Clone, Hash, PartialEq, Eq)]
struct Lb;
impl Label for Lb {
    const NAME: &'static str = "Lb";
    type AssocType = i32;
    type Uid = UInt<UInt<UInt<UTerm, B1>, B0>, B0>;
}

#[derive(Debug, Copy, Clone, Hash, PartialEq, Eq)]
struct Lc;
impl Label for Lc {
    const NAME: &'static str = "Lc";
    type AssocType = i32;
    type Uid = UInt<UInt<UInt<UInt<UTerm, B0>, B1>, B0>, B1>;
}

type Abc = Cons<LabeledValue<La>, Cons<LabeledValue<Lb>, Cons<LabeledValue<Lc>, Nil>>>;

fn abc() -> Abc {
    Cons {
        head: LabeledValue::<La>::new(1),
        tail: Cons {
            head: LabeledValue::<Lb>::new(2),
            tail: Cons { head: LabeledValue::<Lc>::new(3), tail: Nil },
        },
    }
}

#[test]
fn lookup_lookup() {
    let list = Cons {
        head: LabeledValue::<Label1>::new("first value".to_string()),
        tail: Cons {
            head: LabeledValue::<Label2>::new(2),
            tail: Cons { head: LabeledValue::<Label3>::new("third value"), tail: Nil },
        },
    };
    println!("{:?}", LookupElemByLabel::<Label1>::elem(&list));
    println!("{:?}", LookupElemByLabel::<Label2>::elem(&list));
    println!("{:?}", LookupElemByLabel::<Label3>::elem(&list));
}

#[test]
fn lookup() {
    let list = Cons {
        head: PhantomData::<Label1>,
        tail: Cons { head: PhantomData::<Label2>, tail: Nil },
    };
    println!("{:?}", LookupElemByLabel::<Label2>::elem(&list));
}

#[test]
fn lookup_finds_each_element() {
    let list = Cons {
        head: LabeledValue::<Label1>::new("first value".to_string()),
        tail: Cons {
            head: LabeledValue::<Label2>::new(2),
            tail: Cons { head: LabeledValue::<Label3>::new("third value"), tail: Nil },
        },
    };
    assert_eq!(list.elem::<Label1>(), &labeled(Label1, "first value".to_string()));
    assert_eq!(list.elem::<Label2>(), &labeled(Label2, 2));
    assert_eq!(list.elem::<Label3>(), &labeled(Label3, "third value"));
    assert_eq!(list.value::<Label1>(), "first value");
    assert_eq!(list.value::<Label2>(), &2);
    assert_eq!(list.value::<Label3>(), &"third value");
    assert_eq!(list[Label2], 2);
    assert_eq!(list[Label3], "third value");
}

#[test]
fn value_mut_changes_one_element() {
    let mut list = abc();
    assert_eq!(list.value::<Lb>(), &2);

    *list.value_mut::<Lb>() = 9;
    assert_eq!(list.value::<Lb>(), &9);
    assert_eq!(list.value::<La>(), &1);
    assert_eq!(list.value::<Lc>(), &3);

    list[Lc] = 30;
    assert_eq!(
        list,
        Cons {
            head: LabeledValue::<La>::new(1),
            tail: Cons {
                head: LabeledValue::<Lb>::new(9),
                tail: Cons { head: LabeledValue::<Lc>::new(30), tail: Nil },
            },
        }
    );
}

#[test]
fn elem_mut_replaces_the_labeled_value() {
    let mut list = abc();
    let value2 = list.elem_mut::<Lb>();
    assert_eq!(value2, &mut labeled(Lb, 2));
    *value2 = labeled(Lb, -9);
    assert_eq!(
        list,
        Cons {
            head: LabeledValue::<La>::new(1),
            tail: Cons {
                head: LabeledValue::<Lb>::new(-9),
                tail: Cons { head: LabeledValue::<Lc>::new(3), tail: Nil },
            },
        }
    );
}

#[test]
fn lookup_of_a_repeated_label_finds_the_first() {
    let mut list = Cons {
        head: LabeledValue::<La>::new(1),
        tail: Cons {
            head: LabeledValue::<Lb>::new(2),
            tail: Cons {
                head: LabeledValue::<La>::new(3),
                tail: Cons { head: LabeledValue::<Lb>::new(4), tail: Nil },
            },
        },
    };
    assert_eq!(list.value::<La>(), &1);
    assert_eq!(list.value::<Lb>(), &2);
    *list.value_mut::<Lb>() = 20;
    assert_eq!(list.tail.head.value, 20);
    assert_eq!(list.tail.tail.tail.head.value, 4);
}

fn lookups_do_not_meet<List, TargetL, OtherL>(_list: &List)
where
    TargetL: Label,
    OtherL: Label,
    List: LookupFrame<TargetL, OtherL>,
{
}

#[test]
fn lookups_by_different_labels_do_not_meet() {
    let mut list = abc();
    lookups_do_not_meet::<Abc, La, Lb>(&list);
    lookups_do_not_meet::<Abc, Lb, La>(&list);
    lookups_do_not_meet::<Abc, Lb, Lc>(&list);
    lookups_do_not_meet::<Abc, Lc, La>(&list);

    let before_a = *list.value::<La>();
    let before_c = *list.value::<Lc>();
    *list.value_mut::<Lb>() = 77;
    assert_eq!(*list.value::<La>(), before_a);
    assert_eq!(*list.value::<Lc>(), before_c);
    assert_eq!(*list.value::<Lb>(), 77);

    *list.elem_mut::<La>() = labeled(La, -1);
    assert_eq!(list.elem::<Lb>(), &labeled(Lb, 77));
    assert_eq!(list.elem::<Lc>(), &labeled(Lc, 3));
    assert_eq!(list.elem::<La>(), &labeled(La, -1));
}
