use bounce::responses::{CmdRsp, ErrRsp, MscRsp};

#[test]
fn command_replies() {
    assert_eq!(CmdRsp::from(1), Some(CmdRsp::RPL_WELCOME));
    assert_eq!(CmdRsp::from(5), Some(CmdRsp::RPL_BOUNCE));
    assert_eq!(CmdRsp::from(376), Some(CmdRsp::RPL_ENDOFMOTD));
    assert_eq!(CmdRsp::from(263), Some(CmdRsp::RPL_TRYAGAIN));
    assert_eq!(CmdRsp::from(0), None);
    assert_eq!(CmdRsp::from(401), None);
}

#[test]
fn error_replies() {
    assert_eq!(ErrRsp::from(433), Some(ErrRsp::ERR_NICKNAMEINUSE));
    assert_eq!(ErrRsp::from(401), Some(ErrRsp::ERR_NOSUCHNICK));
    assert_eq!(ErrRsp::from(485), Some(ErrRsp::ERR_UNIQOPPRIVSNEEDED));
    assert_eq!(ErrRsp::from(491), Some(ErrRsp::ERR_NOOPERHOST));
    assert_eq!(ErrRsp::from(501), Some(ErrRsp::ERR_UMODEUNKNOWNFLAG));
    assert_eq!(ErrRsp::from(502), Some(ErrRsp::ERR_USERSDONTMATCH));
    assert_eq!(ErrRsp::from(490), None);
    assert_eq!(ErrRsp::from(503), None);
    assert_eq!(ErrRsp::from(1), None);
}

#[test]
fn reserved_replies() {
    assert_eq!(MscRsp::from(231), Some(MscRsp::RPL_SERVICEINFO));
    assert_eq!(MscRsp::from(492), Some(MscRsp::ERR_NOSERVICEHOST));
    assert_eq!(MscRsp::from(244), Some(MscRsp::RPL_STATSHLINE));
    assert_eq!(MscRsp::from(245), None);
    assert_eq!(MscRsp::from(301), None);
    assert_eq!(MscRsp::from(433), None);
}

#[test]
fn every_code_reads_back_to_one_reply() {
    let mut seen = 0;
    for code in 0..=u16::MAX {
        let hits = CmdRsp::from(code).is_some() as u32
            + ErrRsp::from(code).is_some() as u32
            + MscRsp::from(code).is_some() as u32;
        assert!(hits <= 1, "code {} is read by several tables", code);
        seen += hits;
        assert!(MscRsp::from(code) != Some(MscRsp::RPL_STATSSLINE));
    }
    assert_eq!(seen, 84 + 53 + 23);
}
