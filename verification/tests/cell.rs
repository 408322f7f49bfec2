use userdata::{BorrowFlag, BorrowOp, Capability, Error, HostValue, TypeTable, TypeToken, UserDataCell};

#[derive(Debug, Clone, PartialEq)]
struct Plain(i64);

impl HostValue for Plain {
    fn clone_value(&self) -> Self {
        Plain(self.0)
    }

    fn convert_into(&self, target: TypeToken) -> Self {
        Plain(self.0 + target.0 as i64)
    }

    fn subject(&self) -> TypeToken {
        TypeToken(self.0 as u64)
    }
}

fn cell(value: i64) -> UserDataCell<Plain> {
    UserDataCell::new(TypeTable::new(TypeToken(1)), Plain(value))
}

#[test]
fn flag_grants_many_shared_views() {
    let mut flag = BorrowFlag::Free;
    assert!(flag.apply(BorrowOp::Borrow));
    assert_eq!(flag, BorrowFlag::Shared(1));
    assert!(flag.apply(BorrowOp::Borrow));
    assert!(flag.apply(BorrowOp::Borrow));
    assert_eq!(flag, BorrowFlag::Shared(3));
    assert!(flag.apply(BorrowOp::Release));
    assert_eq!(flag, BorrowFlag::Shared(2));
    assert!(flag.apply(BorrowOp::Release));
    assert!(flag.apply(BorrowOp::Release));
    assert_eq!(flag, BorrowFlag::Free);
}

#[test]
fn flag_grants_one_exclusive_view() {
    let mut flag = BorrowFlag::Free;
    assert!(flag.apply(BorrowOp::BorrowMut));
    assert_eq!(flag, BorrowFlag::Exclusive);
    assert!(!flag.apply(BorrowOp::BorrowMut));
    assert_eq!(flag, BorrowFlag::Exclusive);
    assert!(!flag.apply(BorrowOp::Borrow));
    assert_eq!(flag, BorrowFlag::Exclusive);
    assert!(flag.apply(BorrowOp::ReleaseMut));
    assert_eq!(flag, BorrowFlag::Free);
}

#[test]
fn flag_refuses_exclusive_while_shared() {
    let mut flag = BorrowFlag::Shared(2);
    assert!(!flag.apply(BorrowOp::BorrowMut));
    assert_eq!(flag, BorrowFlag::Shared(2));
}

#[test]
fn flag_refuses_release_of_what_is_not_held() {
    let mut flag = BorrowFlag::Free;
    assert!(!flag.apply(BorrowOp::Release));
    assert!(!flag.apply(BorrowOp::ReleaseMut));
    assert_eq!(flag, BorrowFlag::Free);
    let mut flag = BorrowFlag::Shared(1);
    assert!(!flag.apply(BorrowOp::ReleaseMut));
    assert_eq!(flag, BorrowFlag::Shared(1));
    let mut flag = BorrowFlag::Exclusive;
    assert!(!flag.apply(BorrowOp::Release));
    assert_eq!(flag, BorrowFlag::Exclusive);
}

#[test]
fn flag_stops_at_the_largest_count() {
    let mut flag = BorrowFlag::Shared(usize::MAX);
    assert!(!flag.apply(BorrowOp::Borrow));
    assert_eq!(flag, BorrowFlag::Shared(usize::MAX));
    let mut flag = BorrowFlag::Shared(usize::MAX - 1);
    assert!(flag.apply(BorrowOp::Borrow));
    assert_eq!(flag, BorrowFlag::Shared(usize::MAX));
}

#[test]
fn flag_keeps_the_discipline_over_a_sequence() {
    let ops = [
        BorrowOp::Borrow,
        BorrowOp::Borrow,
        BorrowOp::BorrowMut,
        BorrowOp::Release,
        BorrowOp::BorrowMut,
        BorrowOp::Release,
        BorrowOp::BorrowMut,
        BorrowOp::Borrow,
        BorrowOp::ReleaseMut,
        BorrowOp::Borrow,
        BorrowOp::ReleaseMut,
    ];
    let mut flag = BorrowFlag::Free;
    let mut shared: i64 = 0;
    let mut exclusive: i64 = 0;
    for op in ops {
        let granted = flag.apply(op);
        if granted {
            match op {
                BorrowOp::Borrow => shared += 1,
                BorrowOp::BorrowMut => exclusive += 1,
                BorrowOp::Release => shared -= 1,
                BorrowOp::ReleaseMut => exclusive -= 1,
            }
        }
        assert!(exclusive == 0 || exclusive == 1);
        assert!(exclusive == 0 || shared == 0);
        match flag {
            BorrowFlag::Free => assert!(shared == 0 && exclusive == 0),
            BorrowFlag::Shared(n) => assert!(n as i64 == shared && exclusive == 0 && n >= 1),
            BorrowFlag::Exclusive => assert!(shared == 0 && exclusive == 1),
        }
    }
    assert_eq!(flag, BorrowFlag::Shared(1));
}

#[test]
fn new_cell_is_free_and_holds_the_value() {
    let c = cell(7);
    assert_eq!(c.flag(), BorrowFlag::Free);
    assert_eq!(c.get(), Some(&Plain(7)));
    assert_eq!(c.table().id(), TypeToken(1));
}

#[test]
fn cell_shared_then_exclusive_fails() {
    let mut c = cell(7);
    assert_eq!(c.try_borrow(), Ok(()));
    assert_eq!(c.try_borrow(), Ok(()));
    assert_eq!(c.flag(), BorrowFlag::Shared(2));
    assert_eq!(c.try_borrow_mut().err(), Some(Error::UserDataBorrowMutError));
    assert_eq!(c.flag(), BorrowFlag::Shared(2));
    assert_eq!(c.get(), Some(&Plain(7)));
    assert!(c.release_borrow());
    assert!(c.release_borrow());
    assert!(!c.release_borrow());
    assert_eq!(c.flag(), BorrowFlag::Free);
}

#[test]
fn cell_exclusive_takes_the_value_out_and_brings_it_back() {
    let mut c = cell(7);
    let mut value = c.try_borrow_mut().unwrap();
    assert_eq!(value, Plain(7));
    assert_eq!(c.flag(), BorrowFlag::Exclusive);
    assert_eq!(c.get(), None);
    assert_eq!(c.try_borrow().err(), Some(Error::UserDataBorrowError));
    assert_eq!(c.try_borrow_mut().err(), Some(Error::UserDataBorrowMutError));
    assert_eq!(c.flag(), BorrowFlag::Exclusive);
    value.0 = 8;
    assert_eq!(c.release_borrow_mut(value), Ok(()));
    assert_eq!(c.flag(), BorrowFlag::Free);
    assert_eq!(c.get(), Some(&Plain(8)));
}

#[test]
fn cell_release_mut_without_exclusive_view_hands_the_value_back() {
    let mut c = cell(7);
    assert_eq!(c.release_borrow_mut(Plain(9)), Err(Plain(9)));
    assert_eq!(c.get(), Some(&Plain(7)));
    assert_eq!(c.flag(), BorrowFlag::Free);
}

#[test]
fn cell_dyn_borrow_checks_the_capability_first() {
    let mut table = TypeTable::new(TypeToken(1));
    table.add(Capability::Named(3));
    let mut c = UserDataCell::new(table, Plain(1));
    assert_eq!(c.try_dyn_borrow(Capability::Named(4)).err(), Some(Error::UserDataDynMismatch));
    assert_eq!(c.flag(), BorrowFlag::Free);
    assert_eq!(c.try_dyn_borrow(Capability::Named(3)), Ok(()));
    assert_eq!(c.flag(), BorrowFlag::Shared(1));
    assert_eq!(c.try_dyn_borrow_mut(Capability::Named(4)).err(), Some(Error::UserDataDynMismatch));
    assert_eq!(c.try_dyn_borrow_mut(Capability::Named(3)).err(), Some(Error::UserDataBorrowMutError));
    assert!(c.release_borrow());
    assert_eq!(c.try_dyn_borrow_mut(Capability::Named(3)), Ok(Plain(1)));
    assert_eq!(c.try_dyn_borrow(Capability::Named(4)).err(), Some(Error::UserDataDynMismatch));
    assert_eq!(c.try_dyn_borrow(Capability::Named(3)).err(), Some(Error::UserDataBorrowError));
}

#[test]
fn cell_try_clone_needs_a_clone_function() {
    let c = cell(5);
    assert_eq!(c.try_clone(), None);
    let mut table = TypeTable::new(TypeToken(1));
    table.add_clone();
    let mut c = UserDataCell::new(table, Plain(5));
    assert_eq!(c.try_clone(), Some(Plain(5)));
    assert_eq!(c.flag(), BorrowFlag::Free);
    let held = c.try_borrow_mut().unwrap();
    assert_eq!(c.try_clone(), None);
    c.release_borrow_mut(held).unwrap();
}

#[test]
fn cell_into_inner_and_into_boxed() {
    assert_eq!(cell(3).into_inner(), Some(Plain(3)));
    assert_eq!(cell(4).into_boxed(), Some(Box::new(Plain(4))));
    let mut c = cell(5);
    let _held = c.try_borrow_mut().unwrap();
    assert_eq!(c.into_inner(), None);
}

#[test]
fn type_table_declares_each_capability_once() {
    let mut table = TypeTable::new(TypeToken(9));
    assert_eq!(table.id(), TypeToken(9));
    assert!(!table.is(Capability::Send));
    assert!(!table.is_copy());
    assert!(!table.has_clone());
    table.add_send();
    table.add_send();
    table.add_sync();
    table.add_copy();
    table.add(Capability::Into(TypeToken(2)));
    assert!(table.is(Capability::Send));
    assert!(table.is(Capability::Sync));
    assert!(table.is_copy());
    assert!(!table.has_clone());
    assert!(table.is(Capability::Into(TypeToken(2))));
    assert!(!table.is(Capability::Into(TypeToken(3))));
    let copy = table.duplicate();
    assert_eq!(copy.id(), TypeToken(9));
    assert!(copy.is(Capability::Send) && copy.is(Capability::Sync) && copy.is_copy());
    assert!(!copy.is(Capability::Clone));
}

#[test]
fn nonstatic_cell_carries_the_unit_type() {
    let c = UserDataCell::new_nonstatic(Plain(2));
    assert_eq!(c.table().id(), TypeToken::unit());
    assert_eq!(TypeToken::unit(), TypeToken(0));
    assert!(!c.table().has_clone());
    assert_eq!(c.try_clone(), None);
    assert_eq!(c.flag(), BorrowFlag::Free);
    assert_eq!(c.into_inner(), Some(Plain(2)));
}

#[test]
fn flag_can_share_unless_exclusive_or_full() {
    assert!(BorrowFlag::Free.can_share());
    assert!(BorrowFlag::Shared(1).can_share());
    assert!(!BorrowFlag::Shared(usize::MAX).can_share());
    assert!(!BorrowFlag::Exclusive.can_share());
}
