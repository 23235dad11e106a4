use tossicat::transfer::{
    when_blank, when_rieul_and_blank, DEUN, DEUNJI, DEUNKA, EUL, KO, MYEO, NA, NAMA, NI, RADO, RAN, RANG,
    RAYA, RO, WA, YAMALRO, YEO,
};

#[test]
fn _when_rieul_and_blank() {
    let temp = "네이버";
    let result = "로";
    assert_eq!(result, when_rieul_and_blank(temp, RO));
    let temp = "법원";
    let result = "으로";
    assert_eq!(result, when_rieul_and_blank(temp, RO));
    let temp = "구글";
    let result = "로";
    assert_eq!(result, when_rieul_and_blank(temp, RO));
    let temp = "google";
    let result = "(으)로";
    assert_eq!(result, when_rieul_and_blank(temp, RO));
    let temp = "넥슨(코리아)";
    let result = "으로";
    assert_eq!(result, when_rieul_and_blank(temp, RO));
    let temp = "비타500";
    let result = "으로";
    assert_eq!(result, when_rieul_and_blank(temp, RO));
}

#[test]
fn _when_blank() {
    let temp = "네이버";
    let result = "를";
    assert_eq!(result, when_blank(temp, EUL));
    let temp = "google";
    let result = "(을)를";
    assert_eq!(result, when_blank(temp, EUL));
    let temp = "넥슨(코리아)";
    let result = "을";
    assert_eq!(result, when_blank(temp, EUL));
    let temp = "비타500";
    let result = "을";
    assert_eq!(result, when_blank(temp, EUL));
}

#[test]
fn _when_blank_na() {
    let temp = "도서관";
    let result = "이나";
    assert_eq!(result, when_blank(temp, NA));
    let temp = "학교";
    let result = "나";
    assert_eq!(result, when_blank(temp, NA));
    let temp = "어제";
    let result = "나";
    assert_eq!(result, when_blank(temp, NA));
    let temp = "google";
    let result = "(이)나";
    assert_eq!(result, when_blank(temp, NA));
    let temp = "넥슨(코리아)";
    let result = "이나";
    assert_eq!(result, when_blank(temp, NA));
    let temp = "비타500";
    let result = "이나";
    assert_eq!(result, when_blank(temp, NA));
}

#[test]
fn _when_blank_rang() {
    let temp = "도서관";
    let result = "이랑";
    assert_eq!(result, when_blank(temp, RANG));
    let temp = "학교";
    let result = "랑";
    assert_eq!(result, when_blank(temp, RANG));
    let temp = "어제";
    let result = "랑";
    assert_eq!(result, when_blank(temp, RANG));
    let temp = "google";
    let result = "(이)랑";
    assert_eq!(result, when_blank(temp, RANG));
    let temp = "넥슨(코리아)";
    let result = "이랑";
    assert_eq!(result, when_blank(temp, RANG));
    let temp = "비타500";
    let result = "이랑";
    assert_eq!(result, when_blank(temp, RANG));
}

#[test]
fn _when_blank_ran() {
    let temp = "사람";
    let result = "이란";
    assert_eq!(result, when_blank(temp, RAN));
    let temp = "책";
    let result = "이란";
    assert_eq!(result, when_blank(temp, RAN));
    let temp = "우주";
    let result = "란";
    assert_eq!(result, when_blank(temp, RAN));
    let temp = "어제";
    let result = "란";
    assert_eq!(result, when_blank(temp, RAN));
    let temp = "google";
    let result = "(이)란";
    assert_eq!(result, when_blank(temp, RAN));
    let temp = "넥슨(코리아)";
    let result = "이란";
    assert_eq!(result, when_blank(temp, RAN));
    let temp = "비타500";
    let result = "이란";
    assert_eq!(result, when_blank(temp, RAN));
}

#[test]
fn _when_blank_nama() {
    let temp = "못하";
    let result = "나마";
    assert_eq!(result, when_blank(temp, NAMA));
    let temp = "책";
    let result = "이나마";
    assert_eq!(result, when_blank(temp, NAMA));
    let temp = "몸";
    let result = "이나마";
    assert_eq!(result, when_blank(temp, NAMA));
    let temp = "힘";
    let result = "이나마";
    assert_eq!(result, when_blank(temp, NAMA));
    let temp = "google";
    let result = "(이)나마";
    assert_eq!(result, when_blank(temp, NAMA));
    let temp = "넥슨(코리아)";
    let result = "이나마";
    assert_eq!(result, when_blank(temp, NAMA));
    let temp = "비타500";
    let result = "이나마";
    assert_eq!(result, when_blank(temp, NAMA));
}

#[test]
fn _when_blank_myeo() {
    let temp = "그림";
    let result = "이며";
    assert_eq!(result, when_blank(temp, MYEO));
    let temp = "조각";
    let result = "이며";
    assert_eq!(result, when_blank(temp, MYEO));
    let temp = "학자";
    let result = "며";
    assert_eq!(result, when_blank(temp, MYEO));
    let temp = "정치가";
    let result = "며";
    assert_eq!(result, when_blank(temp, MYEO));
    let temp = "google";
    let result = "(이)며";
    assert_eq!(result, when_blank(temp, MYEO));
    let temp = "넥슨(코리아)";
    let result = "이며";
    assert_eq!(result, when_blank(temp, MYEO));
    let temp = "비타500";
    let result = "이며";
    assert_eq!(result, when_blank(temp, MYEO));
}

#[test]
fn _when_blank_yamalro() {
    let temp = "삶";
    let result = "이야말로";
    assert_eq!(result, when_blank(temp, YAMALRO));
    let temp = "조각";
    let result = "이야말로";
    assert_eq!(result, when_blank(temp, YAMALRO));
    let temp = "한자";
    let result = "야말로";
    assert_eq!(result, when_blank(temp, YAMALRO));
    let temp = "정치가";
    let result = "야말로";
    assert_eq!(result, when_blank(temp, YAMALRO));
    let temp = "google";
    let result = "(이)야말로";
    assert_eq!(result, when_blank(temp, YAMALRO));
    let temp = "넥슨(코리아)";
    let result = "이야말로";
    assert_eq!(result, when_blank(temp, YAMALRO));
    let temp = "비타500";
    let result = "이야말로";
    assert_eq!(result, when_blank(temp, YAMALRO));
}

#[test]
fn _when_blank_ko() {
    let temp = "산";
    let result = "이고";
    assert_eq!(result, when_blank(temp, KO));
    let temp = "강";
    let result = "이고";
    assert_eq!(result, when_blank(temp, KO));
    let temp = "공부";
    let result = "고";
    assert_eq!(result, when_blank(temp, KO));
    let temp = "뭐";
    let result = "고";
    assert_eq!(result, when_blank(temp, KO));
    let temp = "직장에서";
    let result = "고";
    assert_eq!(result, when_blank(temp, KO));
    let temp = "가정에서고";
    let result = "고";
    assert_eq!(result, when_blank(temp, KO));
    let temp = "google";
    let result = "(이)고";
    assert_eq!(result, when_blank(temp, KO));
    let temp = "넥슨(코리아)";
    let result = "이고";
    assert_eq!(result, when_blank(temp, KO));
    let temp = "비타500";
    let result = "이고";
    assert_eq!(result, when_blank(temp, KO));
}

#[test]
fn _when_blank_ni() {
    let temp = "떡";
    let result = "이니";
    assert_eq!(result, when_blank(temp, NI));
    let temp = "과일";
    let result = "이니";
    assert_eq!(result, when_blank(temp, NI));
    let temp = "옥수수";
    let result = "니";
    assert_eq!(result, when_blank(temp, NI));
    let temp = "조";
    let result = "니";
    assert_eq!(result, when_blank(temp, NI));
    let temp = "고추";
    let result = "니";
    assert_eq!(result, when_blank(temp, NI));
    let temp = "google";
    let result = "(이)니";
    assert_eq!(result, when_blank(temp, NI));
    let temp = "넥슨(코리아)";
    let result = "이니";
    assert_eq!(result, when_blank(temp, NI));
    let temp = "비타500";
    let result = "이니";
    assert_eq!(result, when_blank(temp, NI));
}

#[test]
fn _when_blank_deun() {
    let temp = "짐승";
    let result = "이든";
    assert_eq!(result, when_blank(temp, DEUN));
    let temp = "사람";
    let result = "이든";
    assert_eq!(result, when_blank(temp, DEUN));
    let temp = "사과";
    let result = "든";
    assert_eq!(result, when_blank(temp, DEUN));
    let temp = "배";
    let result = "든";
    assert_eq!(result, when_blank(temp, DEUN));
    let temp = "고추";
    let result = "든";
    assert_eq!(result, when_blank(temp, DEUN));
    let temp = "google";
    let result = "(이)든";
    assert_eq!(result, when_blank(temp, DEUN));
    let temp = "넥슨(코리아)";
    let result = "이든";
    assert_eq!(result, when_blank(temp, DEUN));
    let temp = "비타500";
    let result = "이든";
    assert_eq!(result, when_blank(temp, DEUN));
}

#[test]
fn _when_blank_deunji() {
    let temp = "일";
    let result = "이든지";
    assert_eq!(result, when_blank(temp, DEUNJI));
    let temp = "짐승";
    let result = "이든지";
    assert_eq!(result, when_blank(temp, DEUNJI));
    let temp = "비행기";
    let result = "든지";
    assert_eq!(result, when_blank(temp, DEUNJI));
    let temp = "기차";
    let result = "든지";
    assert_eq!(result, when_blank(temp, DEUNJI));
    let temp = "google";
    let result = "(이)든지";
    assert_eq!(result, when_blank(temp, DEUNJI));
    let temp = "넥슨(코리아)";
    let result = "이든지";
    assert_eq!(result, when_blank(temp, DEUNJI));
    let temp = "비타500";
    let result = "이든지";
    assert_eq!(result, when_blank(temp, DEUNJI));
}

#[test]
fn _when_blank_deunka() {
    let temp = "재작년";
    let result = "이든가";
    assert_eq!(result, when_blank(temp, DEUNKA));
    let temp = "작년";
    let result = "이든가";
    assert_eq!(result, when_blank(temp, DEUNKA));
    let temp = "운전이라";
    let result = "든가";
    assert_eq!(result, when_blank(temp, DEUNKA));
    let temp = "뭐";
    let result = "든가";
    assert_eq!(result, when_blank(temp, DEUNKA));
    let temp = "google";
    let result = "(이)든가";
    assert_eq!(result, when_blank(temp, DEUNKA));
    let temp = "넥슨(코리아)";
    let result = "이든가";
    assert_eq!(result, when_blank(temp, DEUNKA));
    let temp = "비타500";
    let result = "이든가";
    assert_eq!(result, when_blank(temp, DEUNKA));
}

#[test]
fn _when_blank_yeo() {
    let temp = "슬픔";
    let result = "이여";
    assert_eq!(result, when_blank(temp, YEO));
    let temp = "기쁨";
    let result = "이여";
    assert_eq!(result, when_blank(temp, YEO));
    let temp = "겨레";
    let result = "여";
    assert_eq!(result, when_blank(temp, YEO));
    let temp = "나라";
    let result = "여";
    assert_eq!(result, when_blank(temp, YEO));
    let temp = "google";
    let result = "(이)여";
    assert_eq!(result, when_blank(temp, YEO));
    let temp = "넥슨(코리아)";
    let result = "이여";
    assert_eq!(result, when_blank(temp, YEO));
    let temp = "비타500";
    let result = "이여";
    assert_eq!(result, when_blank(temp, YEO));
}

#[test]
fn _when_blank_raya() {
    let temp = "사람";
    let result = "이라야";
    assert_eq!(result, when_blank(temp, RAYA));
    let temp = "기쁨";
    let result = "이라야";
    assert_eq!(result, when_blank(temp, RAYA));
    let temp = "저녁에";
    let result = "라야";
    assert_eq!(result, when_blank(temp, RAYA));
    let temp = "호랑이";
    let result = "라야";
    assert_eq!(result, when_blank(temp, RAYA));
    let temp = "google";
    let result = "(이)라야";
    assert_eq!(result, when_blank(temp, RAYA));
    let temp = "넥슨(코리아)";
    let result = "이라야";
    assert_eq!(result, when_blank(temp, RAYA));
    let temp = "비타500";
    let result = "이라야";
    assert_eq!(result, when_blank(temp, RAYA));
}

#[test]
fn _when_blank_wa() {
    let temp = "얼음";
    let result = "과";
    assert_eq!(result, when_blank(temp, WA));
    let temp = "친구들";
    let result = "과";
    assert_eq!(result, when_blank(temp, WA));
    let temp = "소";
    let result = "와";
    assert_eq!(result, when_blank(temp, WA));
    let temp = "친구";
    let result = "와";
    assert_eq!(result, when_blank(temp, WA));
    let temp = "google";
    let result = "(와)과";
    assert_eq!(result, when_blank(temp, WA));
    let temp = "넥슨(코리아)";
    let result = "과";
    assert_eq!(result, when_blank(temp, WA));
    let temp = "비타500";
    let result = "과";
    assert_eq!(result, when_blank(temp, WA));
}

#[test]
fn _when_blank_rado() {
    let temp = "얼음";
    let result = "이라도";
    assert_eq!(result, when_blank(temp, RADO));
    let temp = "친구들";
    let result = "이라도";
    assert_eq!(result, when_blank(temp, RADO));
    let temp = "소";
    let result = "라도";
    assert_eq!(result, when_blank(temp, RADO));
    let temp = "친구";
    let result = "라도";
    assert_eq!(result, when_blank(temp, RADO));
    let temp = "google";
    let result = "(이)라도";
    assert_eq!(result, when_blank(temp, RADO));
    let temp = "넥슨(코리아)";
    let result = "이라도";
    assert_eq!(result, when_blank(temp, RADO));
    let temp = "비타500";
    let result = "이라도";
    assert_eq!(result, when_blank(temp, RADO));
}
