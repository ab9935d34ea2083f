use solidity::error::SolidityError;
use solidity::loc::DataLoc;
use solidity::name::{Name, NamePath};
use solidity::specifiers::{FuncMut, FuncVis, Overriding, VarMut, VarVis};

#[test]
fn overriding_queries_and_text() {
    let o = Overriding::Listed(vec![Name::from_str("A"), Name::new("B".to_string(), Some(1))]);
    assert!(o.is_some());
    assert!(!o.is_all());
    assert_eq!(o.to_string(), "override(A, B_1)");
    assert!(Overriding::All.is_all());
    assert_eq!(Overriding::All.to_string(), "override");
    assert!(Overriding::Unspecified.is_none());
    assert_eq!(Overriding::Unspecified.to_string(), "");
}

#[test]
fn visibilities() {
    assert_eq!(FuncVis::new("external"), FuncVis::External);
    assert_eq!(FuncVis::new("private").to_string(), "private");
    assert_eq!(VarVis::new("public"), VarVis::Public);
    assert_eq!(VarVis::new("internal").to_string(), "");
}

#[test]
fn mutabilities() {
    assert_eq!(FuncMut::new("view"), Ok(FuncMut::View));
    assert!(FuncMut::new("view").unwrap().is_view());
    assert!(FuncMut::new("pure").unwrap().is_pure());
    assert!(FuncMut::new("payable").unwrap().is_payable());
    assert!(FuncMut::new("nonpayable").unwrap().is_non_payable());
    assert_eq!(FuncMut::NonPayable.to_string(), "");
    assert_eq!(
        FuncMut::new("constant"),
        Err(SolidityError::UnknownStateMutability("constant".to_string()))
    );
    assert!(VarMut::new("mutable").unwrap().is_mutable());
    assert!(VarMut::new("immutable").unwrap().is_immutable());
    assert_eq!(VarMut::new("constant").unwrap().to_string(), "constant");
    assert_eq!(VarMut::new("fixed"), Err(SolidityError::UnknownMutability("fixed".to_string())));
}

#[test]
fn data_locations() {
    assert_eq!(DataLoc::new("memory"), Ok(DataLoc::Memory));
    assert!(DataLoc::new("calldata").unwrap().is_calldata());
    assert!(DataLoc::new("storage").unwrap().is_storage());
    assert!(DataLoc::new("memory").unwrap().is_memory());
    assert_eq!(DataLoc::new("default"), Ok(DataLoc::Unspecified));
    assert_eq!(DataLoc::new("stack"), Err(SolidityError::UnknownDataLoc("stack".to_string())));
    assert_eq!(DataLoc::Storage.to_string(), "storage");
}

#[test]
fn names_and_paths() {
    assert_eq!(Name::new("x".to_string(), Some(12)).to_string(), "x_12");
    assert_eq!(Name::from_str("y").to_string(), "y");
    let p = NamePath::new(vec![Name::from_str("A"), Name::from_str("B")]);
    assert_eq!(p.to_string(), "A.B");
    assert!(Name::from_str("y").same(&Name::from_str("y")));
    assert!(!Name::from_str("y").same(&Name::new("y".to_string(), Some(0))));
}
