//! The numeric replies of RFC 2812, section 5, as the codes that name them.
use vstd::prelude::*;

verus! {
/// Command replies (RFC 2812, 5.1).
#[allow(non_camel_case_types)]
#[derive(Debug, Clone, Copy, PartialEq, Eq)]
pub enum CmdRsp {
    RPL_WELCOME,
    RPL_YOURHOST,
    RPL_CREATED,
    RPL_MYINFO,
    RPL_BOUNCE,
    RPL_USERHOST,
    RPL_ISON,
    RPL_AWAY,
    RPL_UNAWAY,
    RPL_NOWAWAY,
    RPL_WHOISUSER,
    RPL_WHOISSERVER,
    RPL_WHOISOPERATOR,
    RPL_WHOISIDLE,
    RPL_ENDOFWHOIS,
    RPL_WHOISCHANNELS,
    RPL_WHOWASUSER,
    RPL_ENDOFWHOWAS,
    RPL_LISTSTART,
    RPL_LIST,
    RPL_LISTEND,
    RPL_UNIQOPIS,
    RPL_CHANNELMODEIS,
    RPL_NOTOPIC,
    RPL_TOPIC,
    RPL_INVITING,
    RPL_SUMMONING,
    RPL_INVITELIST,
    RPL_ENDOFINVITELIST,
    RPL_EXCEPTLIST,
    RPL_ENDOFEXCEPTLIST,
    RPL_VERSION,
    RPL_WHOREPLY,
    RPL_ENDOFWHO,
    RPL_NAMREPLY,
    RPL_ENDOFNAMES,
    RPL_LINKS,
    RPL_ENDOFLINKS,
    RPL_BANLIST,
    RPL_ENDOFBANLIST,
    RPL_INFO,
    RPL_ENDOFINFO,
    RPL_MOTDSTART,
    RPL_MOTD,
    RPL_ENDOFMOTD,
    RPL_YOUREOPER,
    RPL_REHASHING,
    RPL_YOURESERVICE,
    RPL_TIME,
    RPL_USERSSTART,
    RPL_USERS,
    RPL_ENDOFUSERS,
    RPL_NOUSERS,
    RPL_TRACELINK,
    RPL_TRACECONNECTING,
    RPL_TRACEHANDSHAKE,
    RPL_TRACEUNKNOWN,
    RPL_TRACEOPERATOR,
    RPL_TRACEUSER,
    RPL_TRACESERVER,
    RPL_TRACESERVICE,
    RPL_TRACENEWTYPE,
    RPL_TRACECLASS,
    RPL_TRACERECONNECT,
    RPL_TRACELOG,
    RPL_TRACEEND,
    RPL_STATSLINKINFO,
    RPL_STATSCOMMANDS,
    RPL_ENDOFSTATS,
    RPL_STATSUPTIME,
    RPL_STATSOLINE,
    RPL_UMODEIS,
    RPL_SERVLIST,
    RPL_SERVLISTEND,
    RPL_LUSERCLIENT,
    RPL_LUSEROP,
    RPL_LUSERUNKNOWN,
    RPL_LUSERCHANNELS,
    RPL_LUSERME,
    RPL_ADMINME,
    RPL_ADMINLOC1,
    RPL_ADMINLOC2,
    RPL_ADMINEMAIL,
    RPL_TRYAGAIN,
}

impl CmdRsp {
    /// No two replies share a code, so `from` gives back the reply that
    /// has the code it is given.
    #[verifier::rlimit(100)]
    pub proof fn lemma_codes_distinct(x: CmdRsp, y: CmdRsp)
        requires
            x.code() == y.code(),
        ensures
            x == y,
    {
    }

    /// The numeric code of the reply.
    pub open spec fn code(self) -> u16 {
        match self {
            CmdRsp::RPL_WELCOME => 1,
            CmdRsp::RPL_YOURHOST => 2,
            CmdRsp::RPL_CREATED => 3,
            CmdRsp::RPL_MYINFO => 4,
            CmdRsp::RPL_BOUNCE => 5,
            CmdRsp::RPL_USERHOST => 302,
            CmdRsp::RPL_ISON => 303,
            CmdRsp::RPL_AWAY => 301,
            CmdRsp::RPL_UNAWAY => 305,
            CmdRsp::RPL_NOWAWAY => 306,
            CmdRsp::RPL_WHOISUSER => 311,
            CmdRsp::RPL_WHOISSERVER => 312,
            CmdRsp::RPL_WHOISOPERATOR => 313,
            CmdRsp::RPL_WHOISIDLE => 317,
            CmdRsp::RPL_ENDOFWHOIS => 318,
            CmdRsp::RPL_WHOISCHANNELS => 319,
            CmdRsp::RPL_WHOWASUSER => 314,
            CmdRsp::RPL_ENDOFWHOWAS => 369,
            CmdRsp::RPL_LISTSTART => 321,
            CmdRsp::RPL_LIST => 322,
            CmdRsp::RPL_LISTEND => 323,
            CmdRsp::RPL_UNIQOPIS => 325,
            CmdRsp::RPL_CHANNELMODEIS => 324,
            CmdRsp::RPL_NOTOPIC => 331,
            CmdRsp::RPL_TOPIC => 332,
            CmdRsp::RPL_INVITING => 341,
            CmdRsp::RPL_SUMMONING => 342,
            CmdRsp::RPL_INVITELIST => 346,
            CmdRsp::RPL_ENDOFINVITELIST => 347,
            CmdRsp::RPL_EXCEPTLIST => 348,
            CmdRsp::RPL_ENDOFEXCEPTLIST => 349,
            CmdRsp::RPL_VERSION => 351,
            CmdRsp::RPL_WHOREPLY => 352,
            CmdRsp::RPL_ENDOFWHO => 315,
            CmdRsp::RPL_NAMREPLY => 353,
            CmdRsp::RPL_ENDOFNAMES => 366,
            CmdRsp::RPL_LINKS => 364,
            CmdRsp::RPL_ENDOFLINKS => 365,
            CmdRsp::RPL_BANLIST => 367,
            CmdRsp::RPL_ENDOFBANLIST => 368,
            CmdRsp::RPL_INFO => 371,
            CmdRsp::RPL_ENDOFINFO => 374,
            CmdRsp::RPL_MOTDSTART => 375,
            CmdRsp::RPL_MOTD => 372,
            CmdRsp::RPL_ENDOFMOTD => 376,
            CmdRsp::RPL_YOUREOPER => 381,
            CmdRsp::RPL_REHASHING => 382,
            CmdRsp::RPL_YOURESERVICE => 383,
            CmdRsp::RPL_TIME => 391,
            CmdRsp::RPL_USERSSTART => 392,
            CmdRsp::RPL_USERS => 393,
            CmdRsp::RPL_ENDOFUSERS => 394,
            CmdRsp::RPL_NOUSERS => 395,
            CmdRsp::RPL_TRACELINK => 200,
            CmdRsp::RPL_TRACECONNECTING => 201,
            CmdRsp::RPL_TRACEHANDSHAKE => 202,
            CmdRsp::RPL_TRACEUNKNOWN => 203,
            CmdRsp::RPL_TRACEOPERATOR => 204,
            CmdRsp::RPL_TRACEUSER => 205,
            CmdRsp::RPL_TRACESERVER => 206,
            CmdRsp::RPL_TRACESERVICE => 207,
            CmdRsp::RPL_TRACENEWTYPE => 208,
            CmdRsp::RPL_TRACECLASS => 209,
            CmdRsp::RPL_TRACERECONNECT => 210,
            CmdRsp::RPL_TRACELOG => 261,
            CmdRsp::RPL_TRACEEND => 262,
            CmdRsp::RPL_STATSLINKINFO => 211,
            CmdRsp::RPL_STATSCOMMANDS => 212,
            CmdRsp::RPL_ENDOFSTATS => 219,
            CmdRsp::RPL_STATSUPTIME => 242,
            CmdRsp::RPL_STATSOLINE => 243,
            CmdRsp::RPL_UMODEIS => 221,
            CmdRsp::RPL_SERVLIST => 234,
            CmdRsp::RPL_SERVLISTEND => 235,
            CmdRsp::RPL_LUSERCLIENT => 251,
            CmdRsp::RPL_LUSEROP => 252,
            CmdRsp::RPL_LUSERUNKNOWN => 253,
            CmdRsp::RPL_LUSERCHANNELS => 254,
            CmdRsp::RPL_LUSERME => 255,
            CmdRsp::RPL_ADMINME => 256,
            CmdRsp::RPL_ADMINLOC1 => 257,
            CmdRsp::RPL_ADMINLOC2 => 258,
            CmdRsp::RPL_ADMINEMAIL => 259,
            CmdRsp::RPL_TRYAGAIN => 263,
        }
    }

    /// The reply that a numeric code stands for, if any.
    #[verifier::rlimit(50)]
    pub fn from(code: u16) -> (r: Option<CmdRsp>)
        ensures
            match r {
                Some(x) => x.code() == code && forall|y: CmdRsp| #[trigger] y.code() == code
                    ==> y == x,
                None => forall|x: CmdRsp| #[trigger] x.code() != code,
            },
    {
        let r = match code {
            1 => Some(CmdRsp::RPL_WELCOME),
            2 => Some(CmdRsp::RPL_YOURHOST),
            3 => Some(CmdRsp::RPL_CREATED),
            4 => Some(CmdRsp::RPL_MYINFO),
            5 => Some(CmdRsp::RPL_BOUNCE),
            302 => Some(CmdRsp::RPL_USERHOST),
            303 => Some(CmdRsp::RPL_ISON),
            301 => Some(CmdRsp::RPL_AWAY),
            305 => Some(CmdRsp::RPL_UNAWAY),
            306 => Some(CmdRsp::RPL_NOWAWAY),
            311 => Some(CmdRsp::RPL_WHOISUSER),
            312 => Some(CmdRsp::RPL_WHOISSERVER),
            313 => Some(CmdRsp::RPL_WHOISOPERATOR),
            317 => Some(CmdRsp::RPL_WHOISIDLE),
            318 => Some(CmdRsp::RPL_ENDOFWHOIS),
            319 => Some(CmdRsp::RPL_WHOISCHANNELS),
            314 => Some(CmdRsp::RPL_WHOWASUSER),
            369 => Some(CmdRsp::RPL_ENDOFWHOWAS),
            321 => Some(CmdRsp::RPL_LISTSTART),
            322 => Some(CmdRsp::RPL_LIST),
            323 => Some(CmdRsp::RPL_LISTEND),
            325 => Some(CmdRsp::RPL_UNIQOPIS),
            324 => Some(CmdRsp::RPL_CHANNELMODEIS),
            331 => Some(CmdRsp::RPL_NOTOPIC),
            332 => Some(CmdRsp::RPL_TOPIC),
            341 => Some(CmdRsp::RPL_INVITING),
            342 => Some(CmdRsp::RPL_SUMMONING),
            346 => Some(CmdRsp::RPL_INVITELIST),
            347 => Some(CmdRsp::RPL_ENDOFINVITELIST),
            348 => Some(CmdRsp::RPL_EXCEPTLIST),
            349 => Some(CmdRsp::RPL_ENDOFEXCEPTLIST),
            351 => Some(CmdRsp::RPL_VERSION),
            352 => Some(CmdRsp::RPL_WHOREPLY),
            315 => Some(CmdRsp::RPL_ENDOFWHO),
            353 => Some(CmdRsp::RPL_NAMREPLY),
            366 => Some(CmdRsp::RPL_ENDOFNAMES),
            364 => Some(CmdRsp::RPL_LINKS),
            365 => Some(CmdRsp::RPL_ENDOFLINKS),
            367 => Some(CmdRsp::RPL_BANLIST),
            368 => Some(CmdRsp::RPL_ENDOFBANLIST),
            371 => Some(CmdRsp::RPL_INFO),
            374 => Some(CmdRsp::RPL_ENDOFINFO),
            375 => Some(CmdRsp::RPL_MOTDSTART),
            372 => Some(CmdRsp::RPL_MOTD),
            376 => Some(CmdRsp::RPL_ENDOFMOTD),
            381 => Some(CmdRsp::RPL_YOUREOPER),
            382 => Some(CmdRsp::RPL_REHASHING),
            383 => Some(CmdRsp::RPL_YOURESERVICE),
            391 => Some(CmdRsp::RPL_TIME),
            392 => Some(CmdRsp::RPL_USERSSTART),
            393 => Some(CmdRsp::RPL_USERS),
            394 => Some(CmdRsp::RPL_ENDOFUSERS),
            395 => Some(CmdRsp::RPL_NOUSERS),
            200 => Some(CmdRsp::RPL_TRACELINK),
            201 => Some(CmdRsp::RPL_TRACECONNECTING),
            202 => Some(CmdRsp::RPL_TRACEHANDSHAKE),
            203 => Some(CmdRsp::RPL_TRACEUNKNOWN),
            204 => Some(CmdRsp::RPL_TRACEOPERATOR),
            205 => Some(CmdRsp::RPL_TRACEUSER),
            206 => Some(CmdRsp::RPL_TRACESERVER),
            207 => Some(CmdRsp::RPL_TRACESERVICE),
            208 => Some(CmdRsp::RPL_TRACENEWTYPE),
            209 => Some(CmdRsp::RPL_TRACECLASS),
            210 => Some(CmdRsp::RPL_TRACERECONNECT),
            261 => Some(CmdRsp::RPL_TRACELOG),
            262 => Some(CmdRsp::RPL_TRACEEND),
            211 => Some(CmdRsp::RPL_STATSLINKINFO),
            212 => Some(CmdRsp::RPL_STATSCOMMANDS),
            219 => Some(CmdRsp::RPL_ENDOFSTATS),
            242 => Some(CmdRsp::RPL_STATSUPTIME),
            243 => Some(CmdRsp::RPL_STATSOLINE),
            221 => Some(CmdRsp::RPL_UMODEIS),
            234 => Some(CmdRsp::RPL_SERVLIST),
            235 => Some(CmdRsp::RPL_SERVLISTEND),
            251 => Some(CmdRsp::RPL_LUSERCLIENT),
            252 => Some(CmdRsp::RPL_LUSEROP),
            253 => Some(CmdRsp::RPL_LUSERUNKNOWN),
            254 => Some(CmdRsp::RPL_LUSERCHANNELS),
            255 => Some(CmdRsp::RPL_LUSERME),
            256 => Some(CmdRsp::RPL_ADMINME),
            257 => Some(CmdRsp::RPL_ADMINLOC1),
            258 => Some(CmdRsp::RPL_ADMINLOC2),
            259 => Some(CmdRsp::RPL_ADMINEMAIL),
            263 => Some(CmdRsp::RPL_TRYAGAIN),
            _ => None,
        };
        proof {
            if let Some(x) = r {
                assert forall|y: CmdRsp| #[trigger] y.code() == code implies y == x by {
                    Self::lemma_codes_distinct(x, y);
                }
            }
        }
        r
    }
}

/// Error replies (RFC 2812, 5.2).
#[allow(non_camel_case_types)]
#[derive(Debug, Clone, Copy, PartialEq, Eq)]
pub enum ErrRsp {
    ERR_NOSUCHNICK,
    ERR_NOSUCHSERVER,
    ERR_NOSUCHCHANNEL,
    ERR_CANNOTSENDTOCHAN,
    ERR_TOOMANYCHANNELS,
    ERR_WASNOSUCHNICK,
    ERR_TOOMANYTARGETS,
    ERR_NOSUCHSERVICE,
    ERR_NOORIGIN,
    ERR_NORECIPIENT,
    ERR_NOTEXTTOSEND,
    ERR_NOTOPLEVEL,
    ERR_WILDTOPLEVEL,
    ERR_BADMASK,
    ERR_UNKNOWNCOMMAND,
    ERR_NOMOTD,
    ERR_NOADMININFO,
    ERR_FILEERROR,
    ERR_NONICKNAMEGIVEN,
    ERR_ERRONEUSNICKNAME,
    ERR_NICKNAMEINUSE,
    ERR_NICKCOLLISION,
    ERR_UNAVAILRESOURCE,
    ERR_USERNOTINCHANNEL,
    ERR_NOTONCHANNEL,
    ERR_USERONCHANNEL,
    ERR_NOLOGIN,
    ERR_SUMMONDISABLED,
    ERR_USERSDISABLED,
    ERR_NOTREGISTERED,
    ERR_NEEDMOREPARAMS,
    ERR_ALREADYREGISTRED,
    ERR_NOPERMFORHOST,
    ERR_PASSWDMISMATCH,
    ERR_YOUREBANNEDCREEP,
    ERR_YOUWILLBEBANNED,
    ERR_KEYSET,
    ERR_CHANNELISFULL,
    ERR_UNKNOWNMODE,
    ERR_INVITEONLYCHAN,
    ERR_BANNEDFROMCHAN,
    ERR_BADCHANNELKEY,
    ERR_BADCHANMASK,
    ERR_NOCHANMODES,
    ERR_BANLISTFULL,
    ERR_NOPRIVILEGES,
    ERR_CHANOPRIVSNEEDED,
    ERR_CANTKILLSERVER,
    ERR_RESTRICTED,
    ERR_UNIQOPPRIVSNEEDED,
    ERR_NOOPERHOST,
    ERR_UMODEUNKNOWNFLAG,
    ERR_USERSDONTMATCH,
}

impl ErrRsp {
    /// No two replies share a code, so `from` gives back the reply that
    /// has the code it is given.
    #[verifier::rlimit(100)]
    pub proof fn lemma_codes_distinct(x: ErrRsp, y: ErrRsp)
        requires
            x.code() == y.code(),
        ensures
            x == y,
    {
    }

    /// The numeric code of the reply.
    pub open spec fn code(self) -> u16 {
        match self {
            ErrRsp::ERR_NOSUCHNICK => 401,
            ErrRsp::ERR_NOSUCHSERVER => 402,
            ErrRsp::ERR_NOSUCHCHANNEL => 403,
            ErrRsp::ERR_CANNOTSENDTOCHAN => 404,
            ErrRsp::ERR_TOOMANYCHANNELS => 405,
            ErrRsp::ERR_WASNOSUCHNICK => 406,
            ErrRsp::ERR_TOOMANYTARGETS => 407,
            ErrRsp::ERR_NOSUCHSERVICE => 408,
            ErrRsp::ERR_NOORIGIN => 409,
            ErrRsp::ERR_NORECIPIENT => 411,
            ErrRsp::ERR_NOTEXTTOSEND => 412,
            ErrRsp::ERR_NOTOPLEVEL => 413,
            ErrRsp::ERR_WILDTOPLEVEL => 414,
            ErrRsp::ERR_BADMASK => 415,
            ErrRsp::ERR_UNKNOWNCOMMAND => 421,
            ErrRsp::ERR_NOMOTD => 422,
            ErrRsp::ERR_NOADMININFO => 423,
            ErrRsp::ERR_FILEERROR => 424,
            ErrRsp::ERR_NONICKNAMEGIVEN => 431,
            ErrRsp::ERR_ERRONEUSNICKNAME => 432,
            ErrRsp::ERR_NICKNAMEINUSE => 433,
            ErrRsp::ERR_NICKCOLLISION => 436,
            ErrRsp::ERR_UNAVAILRESOURCE => 437,
            ErrRsp::ERR_USERNOTINCHANNEL => 441,
            ErrRsp::ERR_NOTONCHANNEL => 442,
            ErrRsp::ERR_USERONCHANNEL => 443,
            ErrRsp::ERR_NOLOGIN => 444,
            ErrRsp::ERR_SUMMONDISABLED => 445,
            ErrRsp::ERR_USERSDISABLED => 446,
            ErrRsp::ERR_NOTREGISTERED => 451,
            ErrRsp::ERR_NEEDMOREPARAMS => 461,
            ErrRsp::ERR_ALREADYREGISTRED => 462,
            ErrRsp::ERR_NOPERMFORHOST => 463,
            ErrRsp::ERR_PASSWDMISMATCH => 464,
            ErrRsp::ERR_YOUREBANNEDCREEP => 465,
            ErrRsp::ERR_YOUWILLBEBANNED => 466,
            ErrRsp::ERR_KEYSET => 467,
            ErrRsp::ERR_CHANNELISFULL => 471,
            ErrRsp::ERR_UNKNOWNMODE => 472,
            ErrRsp::ERR_INVITEONLYCHAN => 473,
            ErrRsp::ERR_BANNEDFROMCHAN => 474,
            ErrRsp::ERR_BADCHANNELKEY => 475,
            ErrRsp::ERR_BADCHANMASK => 476,
            ErrRsp::ERR_NOCHANMODES => 477,
            ErrRsp::ERR_BANLISTFULL => 478,
            ErrRsp::ERR_NOPRIVILEGES => 481,
            ErrRsp::ERR_CHANOPRIVSNEEDED => 482,
            ErrRsp::ERR_CANTKILLSERVER => 483,
            ErrRsp::ERR_RESTRICTED => 484,
            ErrRsp::ERR_UNIQOPPRIVSNEEDED => 485,
            ErrRsp::ERR_NOOPERHOST => 491,
            ErrRsp::ERR_UMODEUNKNOWNFLAG => 501,
            ErrRsp::ERR_USERSDONTMATCH => 502,
        }
    }

    /// The reply that a numeric code stands for, if any.
    #[verifier::rlimit(50)]
    pub fn from(code: u16) -> (r: Option<ErrRsp>)
        ensures
            match r {
                Some(x) => x.code() == code && forall|y: ErrRsp| #[trigger] y.code() == code
                    ==> y == x,
                None => forall|x: ErrRsp| #[trigger] x.code() != code,
            },
    {
        let r = match code {
            401 => Some(ErrRsp::ERR_NOSUCHNICK),
            402 => Some(ErrRsp::ERR_NOSUCHSERVER),
            403 => Some(ErrRsp::ERR_NOSUCHCHANNEL),
            404 => Some(ErrRsp::ERR_CANNOTSENDTOCHAN),
            405 => Some(ErrRsp::ERR_TOOMANYCHANNELS),
            406 => Some(ErrRsp::ERR_WASNOSUCHNICK),
            407 => Some(ErrRsp::ERR_TOOMANYTARGETS),
            408 => Some(ErrRsp::ERR_NOSUCHSERVICE),
            409 => Some(ErrRsp::ERR_NOORIGIN),
            411 => Some(ErrRsp::ERR_NORECIPIENT),
            412 => Some(ErrRsp::ERR_NOTEXTTOSEND),
            413 => Some(ErrRsp::ERR_NOTOPLEVEL),
            414 => Some(ErrRsp::ERR_WILDTOPLEVEL),
            415 => Some(ErrRsp::ERR_BADMASK),
            421 => Some(ErrRsp::ERR_UNKNOWNCOMMAND),
            422 => Some(ErrRsp::ERR_NOMOTD),
            423 => Some(ErrRsp::ERR_NOADMININFO),
            424 => Some(ErrRsp::ERR_FILEERROR),
            431 => Some(ErrRsp::ERR_NONICKNAMEGIVEN),
            432 => Some(ErrRsp::ERR_ERRONEUSNICKNAME),
            433 => Some(ErrRsp::ERR_NICKNAMEINUSE),
            436 => Some(ErrRsp::ERR_NICKCOLLISION),
            437 => Some(ErrRsp::ERR_UNAVAILRESOURCE),
            441 => Some(ErrRsp::ERR_USERNOTINCHANNEL),
            442 => Some(ErrRsp::ERR_NOTONCHANNEL),
            443 => Some(ErrRsp::ERR_USERONCHANNEL),
            444 => Some(ErrRsp::ERR_NOLOGIN),
            445 => Some(ErrRsp::ERR_SUMMONDISABLED),
            446 => Some(ErrRsp::ERR_USERSDISABLED),
            451 => Some(ErrRsp::ERR_NOTREGISTERED),
            461 => Some(ErrRsp::ERR_NEEDMOREPARAMS),
            462 => Some(ErrRsp::ERR_ALREADYREGISTRED),
            463 => Some(ErrRsp::ERR_NOPERMFORHOST),
            464 => Some(ErrRsp::ERR_PASSWDMISMATCH),
            465 => Some(ErrRsp::ERR_YOUREBANNEDCREEP),
            466 => Some(ErrRsp::ERR_YOUWILLBEBANNED),
            467 => Some(ErrRsp::ERR_KEYSET),
            471 => Some(ErrRsp::ERR_CHANNELISFULL),
            472 => Some(ErrRsp::ERR_UNKNOWNMODE),
            473 => Some(ErrRsp::ERR_INVITEONLYCHAN),
            474 => Some(ErrRsp::ERR_BANNEDFROMCHAN),
            475 => Some(ErrRsp::ERR_BADCHANNELKEY),
            476 => Some(ErrRsp::ERR_BADCHANMASK),
            477 => Some(ErrRsp::ERR_NOCHANMODES),
            478 => Some(ErrRsp::ERR_BANLISTFULL),
            481 => Some(ErrRsp::ERR_NOPRIVILEGES),
            482 => Some(ErrRsp::ERR_CHANOPRIVSNEEDED),
            483 => Some(ErrRsp::ERR_CANTKILLSERVER),
            484 => Some(ErrRsp::ERR_RESTRICTED),
            485 => Some(ErrRsp::ERR_UNIQOPPRIVSNEEDED),
            491 => Some(ErrRsp::ERR_NOOPERHOST),
            501 => Some(ErrRsp::ERR_UMODEUNKNOWNFLAG),
            502 => Some(ErrRsp::ERR_USERSDONTMATCH),
            _ => None,
        };
        proof {
            if let Some(x) = r {
                assert forall|y: ErrRsp| #[trigger] y.code() == code implies y == x by {
                    Self::lemma_codes_distinct(x, y);
                }
            }
        }
        r
    }
}

/// Reserved numerics (RFC 2812, 5.3).
#[allow(non_camel_case_types)]
#[derive(Debug, Clone, Copy, PartialEq, Eq)]
pub enum MscRsp {
    RPL_SERVICEINFO,
    RPL_ENDOFSERVICES,
    RPL_SERVICE,
    RPL_NONE,
    RPL_WHOISCHANOP,
    RPL_KILLDONE,
    RPL_CLOSING,
    RPL_CLOSEEND,
    RPL_INFOSTART,
    RPL_MYPORTIS,
    RPL_STATSCLINE,
    RPL_STATSNLINE,
    RPL_STATSILINE,
    RPL_STATSKLINE,
    RPL_STATSQLINE,
    RPL_STATSYLINE,
    RPL_STATSVLINE,
    RPL_STATSLLINE,
    RPL_STATSHLINE,
    RPL_STATSSLINE,
    RPL_STATSPING,
    RPL_STATSBLINE,
    RPL_STATSDLINE,
    ERR_NOSERVICEHOST,
}

impl MscRsp {
    /// No two replies share a code, so `from` gives back the reply that
    /// has the code it is given.
    #[verifier::rlimit(100)]
    pub proof fn lemma_codes_distinct(x: MscRsp, y: MscRsp)
        requires
            x.code() is Some,
            x.code() == y.code(),
        ensures
            x == y,
    {
    }

    /// The numeric code that is read as the reply, if any: `RPL_STATSSLINE`
    /// shares 244 with `RPL_STATSHLINE` in RFC 2812, and 244 is read as the
    /// latter.
    pub open spec fn code(self) -> Option<u16> {
        match self {
            MscRsp::RPL_SERVICEINFO => Some(231),
            MscRsp::RPL_ENDOFSERVICES => Some(232),
            MscRsp::RPL_SERVICE => Some(233),
            MscRsp::RPL_NONE => Some(300),
            MscRsp::RPL_WHOISCHANOP => Some(316),
            MscRsp::RPL_KILLDONE => Some(361),
            MscRsp::RPL_CLOSING => Some(362),
            MscRsp::RPL_CLOSEEND => Some(363),
            MscRsp::RPL_INFOSTART => Some(373),
            MscRsp::RPL_MYPORTIS => Some(384),
            MscRsp::RPL_STATSCLINE => Some(213),
            MscRsp::RPL_STATSNLINE => Some(214),
            MscRsp::RPL_STATSILINE => Some(215),
            MscRsp::RPL_STATSKLINE => Some(216),
            MscRsp::RPL_STATSQLINE => Some(217),
            MscRsp::RPL_STATSYLINE => Some(218),
            MscRsp::RPL_STATSVLINE => Some(240),
            MscRsp::RPL_STATSLLINE => Some(241),
            MscRsp::RPL_STATSHLINE => Some(244),
            MscRsp::RPL_STATSSLINE => None,
            MscRsp::RPL_STATSPING => Some(246),
            MscRsp::RPL_STATSBLINE => Some(247),
            MscRsp::RPL_STATSDLINE => Some(250),
            MscRsp::ERR_NOSERVICEHOST => Some(492),
        }
    }

    /// The reply that a numeric code stands for, if any.
    #[verifier::rlimit(50)]
    pub fn from(code: u16) -> (r: Option<MscRsp>)
        ensures
            match r {
                Some(x) => x.code() == Some(code) && forall|y: MscRsp| #[trigger] y.code() == Some(code)
                    ==> y == x,
                None => forall|x: MscRsp| #[trigger] x.code() != Some(code),
            },
    {
        let r = match code {
            231 => Some(MscRsp::RPL_SERVICEINFO),
            232 => Some(MscRsp::RPL_ENDOFSERVICES),
            233 => Some(MscRsp::RPL_SERVICE),
            300 => Some(MscRsp::RPL_NONE),
            316 => Some(MscRsp::RPL_WHOISCHANOP),
            361 => Some(MscRsp::RPL_KILLDONE),
            362 => Some(MscRsp::RPL_CLOSING),
            363 => Some(MscRsp::RPL_CLOSEEND),
            373 => Some(MscRsp::RPL_INFOSTART),
            384 => Some(MscRsp::RPL_MYPORTIS),
            213 => Some(MscRsp::RPL_STATSCLINE),
            214 => Some(MscRsp::RPL_STATSNLINE),
            215 => Some(MscRsp::RPL_STATSILINE),
            216 => Some(MscRsp::RPL_STATSKLINE),
            217 => Some(MscRsp::RPL_STATSQLINE),
            218 => Some(MscRsp::RPL_STATSYLINE),
            240 => Some(MscRsp::RPL_STATSVLINE),
            241 => Some(MscRsp::RPL_STATSLLINE),
            244 => Some(MscRsp::RPL_STATSHLINE),
            246 => Some(MscRsp::RPL_STATSPING),
            247 => Some(MscRsp::RPL_STATSBLINE),
            250 => Some(MscRsp::RPL_STATSDLINE),
            492 => Some(MscRsp::ERR_NOSERVICEHOST),
            _ => None,
        };
        proof {
            if let Some(x) = r {
                assert forall|y: MscRsp| #[trigger] y.code() == Some(code) implies y == x by {
                    Self::lemma_codes_distinct(x, y);
                }
            }
        }
        r
    }
}

/// The number of each of the command replies of RFC 2812, 5.1, reply by reply.
pub proof fn lemma_cmdrsp_numbers()
    ensures
            CmdRsp::RPL_WELCOME.code() == 1u16,
            CmdRsp::RPL_YOURHOST.code() == 2u16,
            CmdRsp::RPL_CREATED.code() == 3u16,
            CmdRsp::RPL_MYINFO.code() == 4u16,
            CmdRsp::RPL_BOUNCE.code() == 5u16,
            CmdRsp::RPL_USERHOST.code() == 302u16,
            CmdRsp::RPL_ISON.code() == 303u16,
            CmdRsp::RPL_AWAY.code() == 301u16,
            CmdRsp::RPL_UNAWAY.code() == 305u16,
            CmdRsp::RPL_NOWAWAY.code() == 306u16,
            CmdRsp::RPL_WHOISUSER.code() == 311u16,
            CmdRsp::RPL_WHOISSERVER.code() == 312u16,
            CmdRsp::RPL_WHOISOPERATOR.code() == 313u16,
            CmdRsp::RPL_WHOISIDLE.code() == 317u16,
            CmdRsp::RPL_ENDOFWHOIS.code() == 318u16,
            CmdRsp::RPL_WHOISCHANNELS.code() == 319u16,
            CmdRsp::RPL_WHOWASUSER.code() == 314u16,
            CmdRsp::RPL_ENDOFWHOWAS.code() == 369u16,
            CmdRsp::RPL_LISTSTART.code() == 321u16,
            CmdRsp::RPL_LIST.code() == 322u16,
            CmdRsp::RPL_LISTEND.code() == 323u16,
            CmdRsp::RPL_UNIQOPIS.code() == 325u16,
            CmdRsp::RPL_CHANNELMODEIS.code() == 324u16,
            CmdRsp::RPL_NOTOPIC.code() == 331u16,
            CmdRsp::RPL_TOPIC.code() == 332u16,
            CmdRsp::RPL_INVITING.code() == 341u16,
            CmdRsp::RPL_SUMMONING.code() == 342u16,
            CmdRsp::RPL_INVITELIST.code() == 346u16,
            CmdRsp::RPL_ENDOFINVITELIST.code() == 347u16,
            CmdRsp::RPL_EXCEPTLIST.code() == 348u16,
            CmdRsp::RPL_ENDOFEXCEPTLIST.code() == 349u16,
            CmdRsp::RPL_VERSION.code() == 351u16,
            CmdRsp::RPL_WHOREPLY.code() == 352u16,
            CmdRsp::RPL_ENDOFWHO.code() == 315u16,
            CmdRsp::RPL_NAMREPLY.code() == 353u16,
            CmdRsp::RPL_ENDOFNAMES.code() == 366u16,
            CmdRsp::RPL_LINKS.code() == 364u16,
            CmdRsp::RPL_ENDOFLINKS.code() == 365u16,
            CmdRsp::RPL_BANLIST.code() == 367u16,
            CmdRsp::RPL_ENDOFBANLIST.code() == 368u16,
            CmdRsp::RPL_INFO.code() == 371u16,
            CmdRsp::RPL_ENDOFINFO.code() == 374u16,
            CmdRsp::RPL_MOTDSTART.code() == 375u16,
            CmdRsp::RPL_MOTD.code() == 372u16,
            CmdRsp::RPL_ENDOFMOTD.code() == 376u16,
            CmdRsp::RPL_YOUREOPER.code() == 381u16,
            CmdRsp::RPL_REHASHING.code() == 382u16,
            CmdRsp::RPL_YOURESERVICE.code() == 383u16,
            CmdRsp::RPL_TIME.code() == 391u16,
            CmdRsp::RPL_USERSSTART.code() == 392u16,
            CmdRsp::RPL_USERS.code() == 393u16,
            CmdRsp::RPL_ENDOFUSERS.code() == 394u16,
            CmdRsp::RPL_NOUSERS.code() == 395u16,
            CmdRsp::RPL_TRACELINK.code() == 200u16,
            CmdRsp::RPL_TRACECONNECTING.code() == 201u16,
            CmdRsp::RPL_TRACEHANDSHAKE.code() == 202u16,
            CmdRsp::RPL_TRACEUNKNOWN.code() == 203u16,
            CmdRsp::RPL_TRACEOPERATOR.code() == 204u16,
            CmdRsp::RPL_TRACEUSER.code() == 205u16,
            CmdRsp::RPL_TRACESERVER.code() == 206u16,
            CmdRsp::RPL_TRACESERVICE.code() == 207u16,
            CmdRsp::RPL_TRACENEWTYPE.code() == 208u16,
            CmdRsp::RPL_TRACECLASS.code() == 209u16,
            CmdRsp::RPL_TRACERECONNECT.code() == 210u16,
            CmdRsp::RPL_TRACELOG.code() == 261u16,
            CmdRsp::RPL_TRACEEND.code() == 262u16,
            CmdRsp::RPL_STATSLINKINFO.code() == 211u16,
            CmdRsp::RPL_STATSCOMMANDS.code() == 212u16,
            CmdRsp::RPL_ENDOFSTATS.code() == 219u16,
            CmdRsp::RPL_STATSUPTIME.code() == 242u16,
            CmdRsp::RPL_STATSOLINE.code() == 243u16,
            CmdRsp::RPL_UMODEIS.code() == 221u16,
            CmdRsp::RPL_SERVLIST.code() == 234u16,
            CmdRsp::RPL_SERVLISTEND.code() == 235u16,
            CmdRsp::RPL_LUSERCLIENT.code() == 251u16,
            CmdRsp::RPL_LUSEROP.code() == 252u16,
            CmdRsp::RPL_LUSERUNKNOWN.code() == 253u16,
            CmdRsp::RPL_LUSERCHANNELS.code() == 254u16,
            CmdRsp::RPL_LUSERME.code() == 255u16,
            CmdRsp::RPL_ADMINME.code() == 256u16,
            CmdRsp::RPL_ADMINLOC1.code() == 257u16,
            CmdRsp::RPL_ADMINLOC2.code() == 258u16,
            CmdRsp::RPL_ADMINEMAIL.code() == 259u16,
            CmdRsp::RPL_TRYAGAIN.code() == 263u16,
{
}

/// The number of each of the error replies of RFC 2812, 5.2, reply by reply.
pub proof fn lemma_errrsp_numbers()
    ensures
            ErrRsp::ERR_NOSUCHNICK.code() == 401u16,
            ErrRsp::ERR_NOSUCHSERVER.code() == 402u16,
            ErrRsp::ERR_NOSUCHCHANNEL.code() == 403u16,
            ErrRsp::ERR_CANNOTSENDTOCHAN.code() == 404u16,
            ErrRsp::ERR_TOOMANYCHANNELS.code() == 405u16,
            ErrRsp::ERR_WASNOSUCHNICK.code() == 406u16,
            ErrRsp::ERR_TOOMANYTARGETS.code() == 407u16,
            ErrRsp::ERR_NOSUCHSERVICE.code() == 408u16,
            ErrRsp::ERR_NOORIGIN.code() == 409u16,
            ErrRsp::ERR_NORECIPIENT.code() == 411u16,
            ErrRsp::ERR_NOTEXTTOSEND.code() == 412u16,
            ErrRsp::ERR_NOTOPLEVEL.code() == 413u16,
            ErrRsp::ERR_WILDTOPLEVEL.code() == 414u16,
            ErrRsp::ERR_BADMASK.code() == 415u16,
            ErrRsp::ERR_UNKNOWNCOMMAND.code() == 421u16,
            ErrRsp::ERR_NOMOTD.code() == 422u16,
            ErrRsp::ERR_NOADMININFO.code() == 423u16,
            ErrRsp::ERR_FILEERROR.code() == 424u16,
            ErrRsp::ERR_NONICKNAMEGIVEN.code() == 431u16,
            ErrRsp::ERR_ERRONEUSNICKNAME.code() == 432u16,
            ErrRsp::ERR_NICKNAMEINUSE.code() == 433u16,
            ErrRsp::ERR_NICKCOLLISION.code() == 436u16,
            ErrRsp::ERR_UNAVAILRESOURCE.code() == 437u16,
            ErrRsp::ERR_USERNOTINCHANNEL.code() == 441u16,
            ErrRsp::ERR_NOTONCHANNEL.code() == 442u16,
            ErrRsp::ERR_USERONCHANNEL.code() == 443u16,
            ErrRsp::ERR_NOLOGIN.code() == 444u16,
            ErrRsp::ERR_SUMMONDISABLED.code() == 445u16,
            ErrRsp::ERR_USERSDISABLED.code() == 446u16,
            ErrRsp::ERR_NOTREGISTERED.code() == 451u16,
            ErrRsp::ERR_NEEDMOREPARAMS.code() == 461u16,
            ErrRsp::ERR_ALREADYREGISTRED.code() == 462u16,
            ErrRsp::ERR_NOPERMFORHOST.code() == 463u16,
            ErrRsp::ERR_PASSWDMISMATCH.code() == 464u16,
            ErrRsp::ERR_YOUREBANNEDCREEP.code() == 465u16,
            ErrRsp::ERR_YOUWILLBEBANNED.code() == 466u16,
            ErrRsp::ERR_KEYSET.code() == 467u16,
            ErrRsp::ERR_CHANNELISFULL.code() == 471u16,
            ErrRsp::ERR_UNKNOWNMODE.code() == 472u16,
            ErrRsp::ERR_INVITEONLYCHAN.code() == 473u16,
            ErrRsp::ERR_BANNEDFROMCHAN.code() == 474u16,
            ErrRsp::ERR_BADCHANNELKEY.code() == 475u16,
            ErrRsp::ERR_BADCHANMASK.code() == 476u16,
            ErrRsp::ERR_NOCHANMODES.code() == 477u16,
            ErrRsp::ERR_BANLISTFULL.code() == 478u16,
            ErrRsp::ERR_NOPRIVILEGES.code() == 481u16,
            ErrRsp::ERR_CHANOPRIVSNEEDED.code() == 482u16,
            ErrRsp::ERR_CANTKILLSERVER.code() == 483u16,
            ErrRsp::ERR_RESTRICTED.code() == 484u16,
            ErrRsp::ERR_UNIQOPPRIVSNEEDED.code() == 485u16,
            ErrRsp::ERR_NOOPERHOST.code() == 491u16,
            ErrRsp::ERR_UMODEUNKNOWNFLAG.code() == 501u16,
            ErrRsp::ERR_USERSDONTMATCH.code() == 502u16,
{
}

/// The number of each of the reserved numerics of RFC 2812, 5.3, reply by reply.
pub proof fn lemma_mscrsp_numbers()
    ensures
            MscRsp::RPL_SERVICEINFO.code() == Some(231u16),
            MscRsp::RPL_ENDOFSERVICES.code() == Some(232u16),
            MscRsp::RPL_SERVICE.code() == Some(233u16),
            MscRsp::RPL_NONE.code() == Some(300u16),
            MscRsp::RPL_WHOISCHANOP.code() == Some(316u16),
            MscRsp::RPL_KILLDONE.code() == Some(361u16),
            MscRsp::RPL_CLOSING.code() == Some(362u16),
            MscRsp::RPL_CLOSEEND.code() == Some(363u16),
            MscRsp::RPL_INFOSTART.code() == Some(373u16),
            MscRsp::RPL_MYPORTIS.code() == Some(384u16),
            MscRsp::RPL_STATSCLINE.code() == Some(213u16),
            MscRsp::RPL_STATSNLINE.code() == Some(214u16),
            MscRsp::RPL_STATSILINE.code() == Some(215u16),
            MscRsp::RPL_STATSKLINE.code() == Some(216u16),
            MscRsp::RPL_STATSQLINE.code() == Some(217u16),
            MscRsp::RPL_STATSYLINE.code() == Some(218u16),
            MscRsp::RPL_STATSVLINE.code() == Some(240u16),
            MscRsp::RPL_STATSLLINE.code() == Some(241u16),
            MscRsp::RPL_STATSHLINE.code() == Some(244u16),
            MscRsp::RPL_STATSPING.code() == Some(246u16),
            MscRsp::RPL_STATSBLINE.code() == Some(247u16),
            MscRsp::RPL_STATSDLINE.code() == Some(250u16),
            MscRsp::ERR_NOSERVICEHOST.code() == Some(492u16),
            MscRsp::RPL_STATSSLINE.code() is None,
{
}

} // verus!
